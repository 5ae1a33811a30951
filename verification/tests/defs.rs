use letterboxd::FilmsRequest;
use letterboxd::IncludeFriends;
use letterboxd::ListCreationRequest;
use letterboxd::ListUpdateEntry;
use letterboxd::ListUpdateRequest;
use letterboxd::ListsRequest;
use letterboxd::MemberFilmRelationshipsRequest;
use letterboxd::SearchRequest;

#[test]
fn new_list_creation_request_holds_the_name_only() {
    let request = ListCreationRequest::new(String::from("new list"));
    assert_eq!(request.name, "new list");
    assert!(!request.published);
    assert!(!request.ranked);
    assert!(request.description.is_none());
    assert!(request.cloned_from.is_none());
    assert!(request.tags.is_empty());
    assert!(request.entries.is_empty());
    assert!(request.share.is_empty());
}

#[test]
fn new_list_update_entry_holds_the_film_only() {
    let entry = ListUpdateEntry::new(String::from("2a9q"));
    assert_eq!(entry.film, "2a9q");
    assert!(entry.rank.is_none());
    assert!(entry.notes.is_none());
    assert!(entry.contains_spoilers.is_none());
}

#[test]
fn new_list_update_request_holds_the_name_only() {
    let request = ListUpdateRequest::new(String::from("some_new_list"));
    assert_eq!(request.name, "some_new_list");
    assert!(request.published.is_none());
    assert!(request.ranked.is_none());
    assert!(request.description.is_none());
    assert!(request.tags.is_empty());
    assert!(request.films_to_remove.is_empty());
    assert!(request.entries.is_empty());
    assert!(request.share.is_empty());
}

#[test]
fn list_update_request_takes_entries() {
    let request = ListUpdateRequest {
        entries: vec![
            ListUpdateEntry::new(String::from("2a9q")),
            ListUpdateEntry::new(String::from("bPI")),
        ],
        ..ListUpdateRequest::new(String::from("new list"))
    };
    assert_eq!(request.name, "new list");
    assert_eq!(request.entries.len(), 2);
    assert_eq!(request.entries[0].film, "2a9q");
    assert_eq!(request.entries[1].film, "bPI");
}

#[test]
fn new_search_request_holds_the_input_only() {
    let request = SearchRequest::new(String::from("Fight Club"));
    assert_eq!(request.input, "Fight Club");
    assert!(request.cursor.is_none());
    assert!(request.per_page.is_none());
    assert!(request.search_method.is_none());
    assert!(request.include_types.is_none());
    assert!(request.contribution_type.is_none());
}

#[test]
fn default_films_request_sets_nothing() {
    let request = FilmsRequest::default();
    assert!(request.cursor.is_none());
    assert!(request.per_page.is_none());
    assert!(request.sort.is_none());
    assert!(request.genre.is_none());
    assert!(request.decade.is_none());
    assert!(request.year.is_none());
    assert!(request.service.is_none());
    assert!(request.where_film_status.is_empty());
    assert!(request.member.is_none());
    assert!(request.member_relationship.is_none());
    assert!(request.include_friends.is_none());
    assert!(request.tag_code.is_none());
    assert!(request.tagger.is_none());
    assert!(request.include_tagger_friends.is_none());
}

#[test]
fn films_request_with_one_field_set() {
    let request = FilmsRequest { per_page: Some(1), ..Default::default() };
    assert_eq!(request.per_page, Some(1));
    assert!(request.cursor.is_none());
    let friends = FilmsRequest { include_friends: Some(IncludeFriends::NoFriends), ..Default::default() };
    assert!(matches!(friends.include_friends, Some(IncludeFriends::NoFriends)));
}

#[test]
fn default_lists_request_sets_nothing() {
    let request = ListsRequest::default();
    assert!(request.cursor.is_none());
    assert!(request.per_page.is_none());
    assert!(request.sort.is_none());
    assert!(request.film.is_none());
    assert!(request.cloned_from.is_none());
    assert!(request.tag_code.is_none());
    assert!(request.member.is_none());
    assert!(request.member_relationship.is_none());
    assert!(request.include_friends.is_none());
    assert!(request.where_list_status.is_empty());
    assert!(request.filter.is_empty());
}

#[test]
fn default_member_film_relationships_request_sets_nothing() {
    let request = MemberFilmRelationshipsRequest::default();
    assert!(request.cursor.is_none());
    assert!(request.per_page.is_none());
    assert!(request.sort.is_none());
    assert!(request.member.is_none());
    assert!(request.member_relationship.is_none());
    assert!(request.film_relationship.is_none());
}
