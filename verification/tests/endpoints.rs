use letterboxd::Endpoint;
use letterboxd::Method;

fn check(endpoint: Endpoint, method: Method, path: &str) {
    assert_eq!(endpoint.method, method);
    assert_eq!(endpoint.path, path);
    assert_eq!(endpoint.requires_auth, method != Method::Get);
    assert_eq!(endpoint.requires_auth, method.requires_auth());
}

#[test]
fn film_endpoints() {
    check(Endpoint::films(), Method::Get, "films");
    check(Endpoint::film_services(), Method::Get, "films/film-services");
    check(Endpoint::film_genres(), Method::Get, "films/genres");
    check(Endpoint::film("2a9q"), Method::Get, "film/2a9q");
    check(Endpoint::film_availability("2a9q"), Method::Get, "film/2a9q/availability");
    check(Endpoint::film_relationship("2a9q"), Method::Get, "film/2a9q/me");
    check(Endpoint::update_film_relationship("2a9q"), Method::Patch, "film/2a9q/me");
    check(Endpoint::film_relationship_members("2a9q"), Method::Get, "film/2a9q/members");
    check(Endpoint::film_statistics("2a9q"), Method::Get, "film/2a9q/statistics");
}

#[test]
fn list_endpoints() {
    check(Endpoint::lists(), Method::Get, "lists");
    check(Endpoint::create_list(), Method::Post, "lists");
    check(Endpoint::list("1fKte"), Method::Get, "list/1fKte");
    check(Endpoint::update_list("1fKte"), Method::Patch, "list/1fKte");
    check(Endpoint::list_entries("1fKte"), Method::Get, "list/1fKte/entries");
}

#[test]
fn deleting_a_list_is_a_delete() {
    check(Endpoint::delete_list("1fKte"), Method::Delete, "list/1fKte");
}

#[test]
fn search_endpoint() {
    check(Endpoint::search(), Method::Get, "search");
}

#[test]
fn an_empty_id_leaves_the_frame() {
    check(Endpoint::film(""), Method::Get, "film/");
    check(Endpoint::film_statistics(""), Method::Get, "film//statistics");
}

#[test]
fn reading_requires_no_authentication() {
    assert!(!Method::Get.requires_auth());
    assert!(!Endpoint::films().requires_auth);
    assert!(!Endpoint::film("2a9q").requires_auth);
    assert!(!Endpoint::film_relationship("2a9q").requires_auth);
    assert!(!Endpoint::search().requires_auth);
}

#[test]
fn writing_requires_authentication() {
    assert!(Method::Post.requires_auth());
    assert!(Method::Patch.requires_auth());
    assert!(Method::Delete.requires_auth());
    assert!(Endpoint::create_list().requires_auth);
    assert!(Endpoint::update_list("1fKte").requires_auth);
    assert!(Endpoint::update_film_relationship("2a9q").requires_auth);
    assert!(Endpoint::delete_list("1fKte").requires_auth);
}
