//! The data types of the Letterboxd API: what a request may say and what a
//! response holds. Entities are named by their Letterboxd ID (LID), an opaque
//! alphanumeric string.
//!
//! The API does not always say whether a field is optional; where it has been
//! seen missing, the field is an `Option`.

use vstd::prelude::*;

verus! {

/// A cursor is a String value provided by the API. It should be treated as an
/// opaque value: pass it back as it came.
pub type Cursor = String;

#[derive(Debug, Clone)]
pub struct AccessToken {
    /// The access token that grants the member access. Combine this with the
    /// token_type to form the Authorization header.
    pub access_token: String,
    /// The type of the access token. Use value: bearer
    pub token_type: String,
    /// The refresh token is used to obtain a new access token, after the
    /// access token expires, without needing to prompt the member for their
    /// credentials again. The refresh token only expires if it is explicitly
    /// invalidated by Letterboxd, in which case the member should be prompted
    /// for their credentials (or stored credentials used).
    pub refresh_token: String,
    /// The number of seconds before the access token expires.
    pub expires_in: usize,
}

#[derive(Debug, Clone)]
pub struct CommentCreationRequest {
    /// The message portion of the comment in LBML. May contain the following
    /// HTML tags: `<br>` `<strong>` `<em>` `<b>` `<i>` `<a href="">`
    /// `<blockquote>`. This field has a maximum size of 100,000 characters.
    pub comment: String,
}

#[derive(Debug, Clone)]
pub enum ContributionType {
    Director,
    Actor,
    Producer,
    Writer,
    Editor,
    Cinematography,
    ArtDirection,
    VisualEffects,
    Composer,
    Sound,
    Costumes,
    MakeUp,
    Studio,
}

#[derive(Debug, Clone)]
pub struct Contributor {
    /// The LID of the contributor.
    pub id: String,
    /// The name of the contributor.
    pub name: String,
    /// A list of relevant URLs to this entity, on Letterboxd and external sites.
    pub links: Vec<Link>,
}

#[derive(Debug, Clone)]
pub struct ContributorSummary {
    /// The LID of the contributor.
    pub id: String,
    /// The name of the contributor.
    pub name: String,
    /// The character name if available (only if the contribution is as an
    /// Actor; see the type field in FilmContributions).
    pub character_name: Option<String>,
}

#[derive(Debug, Clone)]
pub struct DiaryDetails {
    /// The date the film was watched, if specified, in ISO 8601 format, i.e.
    /// YYYY-MM-DD
    pub diary_date: String,
    /// Will be true if the member has indicated (or it can be otherwise
    /// determined) that the member has seen the film prior to this date.
    pub rewatch: bool,
}

#[derive(Debug, Clone)]
pub enum FilmAvailabilityService {
    Amazon,
    AmazonVideo,
    AmazonPrime,
    #[allow(non_camel_case_types)]
    iTunes,
    Netflix,
}

#[derive(Debug, Clone)]
pub struct FilmAvailability {
    /// The service.
    pub service: FilmAvailabilityService,
    /// The service’s name.
    pub display_name: String,
    /// The regional store for the service. Not all countries are supported on
    /// all services.
    pub country: Country,
    /// The unique ID (if any) for the film on the store.
    pub id: String,
    /// The fully qualified URL for the film on this store.
    pub url: String,
}

#[derive(Debug, Clone)]
pub enum Country {
    AIA,
    ARE,
    ARG,
    ARM,
    ATG,
    AUS,
    AUT,
    AZE,
    BEL,
    BFA,
    BGR,
    BHR,
    BHS,
    BLR,
    BLZ,
    BMU,
    BOL,
    BRA,
    BRB,
    BRN,
    BWA,
    CAN,
    CHE,
    CHL,
    CHN,
    COL,
    CPV,
    CRI,
    CYM,
    CYP,
    CZE,
    DEU,
    DMA,
    DNK,
    DOM,
    ECU,
    EGY,
    ESP,
    EST,
    FIN,
    FJI,
    FRA,
    FSM,
    GBR,
    GHA,
    GMB,
    GNB,
    GRC,
    GRD,
    GTM,
    HKG,
    HND,
    HUN,
    IDN,
    IND,
    IRL,
    ISR,
    ITA,
    JOR,
    JPN,
    KAZ,
    KEN,
    KGZ,
    KHM,
    KNA,
    LAO,
    LBN,
    LKA,
    LTU,
    LUX,
    LVA,
    MAC,
    MDA,
    MEX,
    MLT,
    MNG,
    MOZ,
    MUS,
    MYS,
    NAM,
    NER,
    NGA,
    NIC,
    NLD,
    NOR,
    NPL,
    NZL,
    OMN,
    PAN,
    PER,
    PHL,
    PNG,
    POL,
    PRT,
    PRY,
    QAT,
    ROU,
    RUS,
    SAU,
    SGP,
    SLV,
    SVK,
    SVN,
    SWE,
    SWZ,
    THA,
    TJK,
    TKM,
    TTO,
    TUR,
    TWN,
    UGA,
    UKR,
    USA,
    UZB,
    VEN,
    VGB,
    VNM,
    ZAF,
    ZWE,
}

#[derive(Debug, Clone)]
pub struct FilmAvailabilityResponse {
    /// The list of stores where the film is available for streaming or
    /// purchasing, in order of preference. If the member has not specified
    /// their preferred stores for a service, the USA store will be assumed.
    pub items: Option<Vec<FilmAvailability>>,
}

#[derive(Debug, Clone)]
pub struct FilmContributions {
    /// The type of contribution.
    pub contribution_type: Option<ContributionType>,
    /// The list of contributors of the specified type for the film.
    pub contributors: Vec<ContributorSummary>,
}

#[derive(Debug, Clone)]
pub enum FilmStatus {
    Released,
    NotReleased,
    InWatchlist,
    NotInWatchlist,
    Watched,
    NotWatched,
    FeatureLength,
    NotFeatureLength,
}

#[derive(Debug, Clone)]
pub enum FilmRelationshipType {
    Watched,
    NotWatched,
    Liked,
    NotLiked,
    InWatchlist,
    NotInWatchlist,
    Favorited,
}

#[derive(Debug, Clone)]
pub struct FilmIdentifier {
    /// The LID of the film.
    pub id: String,
}

#[derive(Debug, Clone)]
pub enum FilmRelationshipUpdateMessageCode {
    InvalidRatingValue,
    UnableToRemoveWatch,
}

#[derive(Debug, Clone)]
pub enum FilmRelationshipUpdateMessage {
    Error {
        /// The error message code.
        code: FilmRelationshipUpdateMessageCode,
        /// The error message text in human-readable form.
        title: String,
    },
}

#[derive(Debug, Clone)]
pub struct FilmServicesResponse {
    /// The list of film services.
    pub items: Vec<Service>,
}

#[derive(Debug, Clone)]
pub struct FilmStatisticsCounts {
    /// The number of members who have watched the film.
    pub watches: usize,
    /// The number of members who have liked the film.
    pub likes: usize,
    /// The number of members who have rated the film.
    pub ratings: usize,
    /// The number of members who have the film as one of their four favorites.
    pub fans: usize,
    /// The number of lists in which the film appears.
    pub lists: usize,
    /// The number of reviews for the film.
    pub reviews: usize,
}

#[derive(Debug, Clone)]
pub struct FilmTrailer {
    /// The YouTube ID of the trailer. "ICp4g9p_rgo".
    pub id: String,
    /// The YouTube URL for the trailer.
    /// "https://www.youtube.com/watch?v=ICp4g9p_rgo"
    pub url: String,
}

#[derive(Debug, Clone)]
pub enum FilmRequestSort {
    FilmName,
    ReleaseDateLatestFirst,
    ReleaseDateEarliestFirst,
    RatingHighToLow,
    RatingLowToHigh,
    FilmDurationShortestFirst,
    FilmDurationLongestFirst,
    FilmPopularity,
    FilmPopularityThisWeek,
    FilmPopularityThisMonth,
    FilmPopularityThisYear,
    FilmPopularityWithFriends,
    FilmPopularityWithFriendsThisWeek,
    FilmPopularityWithFriendsThisMonth,
    FilmPopularityWithFriendsThisYear,
}

#[derive(Debug, Clone)]
pub struct FilmsRequest {
    /// The pagination cursor.
    pub cursor: Option<Cursor>,
    /// The number of items to include per page (default is 20, maximum is 100).
    pub per_page: Option<usize>,
    /// The order in which the films should be returned. Defaults to
    /// FilmPopularity, which is an all-time measurement of the amount of
    /// activity the film has received. The FilmPopularityWithFriends values
    /// are only available to signed-in members and consider popularity amongst
    /// the signed-in member’s friends.
    pub sort: Option<FilmRequestSort>,
    /// Specify the LID of a genre to limit films to those within the specified
    /// genre.
    pub genre: Option<String>,
    /// Specify the starting year of a decade (must end in 0) to limit films to
    /// those released during the decade. 1990
    pub decade: Option<u16>,
    /// Specify a year to limit films to those released during that year. 1994
    pub year: Option<u16>,
    /// Specify the ID of a supported service to limit films to those available
    /// from that service. The list of available services can be found by using
    /// the /films/film-services endpoint.
    pub service: Option<String>,
    /// Specify one or more values to limit the list of films accordingly.
    /// where=Watched&where=Released
    pub where_film_status: Vec<FilmStatus>,
    /// Specify the LID of a member to limit the returned films according to
    /// the value set in memberRelationship.
    pub member: Option<String>,
    /// Must be used in conjunction with member. Defaults to Watched. Specify
    /// the type of relationship to limit the returned films accordingly.
    pub member_relationship: Option<FilmRelationshipType>,
    /// Must be used in conjunction with member. Defaults to None, which only
    /// returns films from the member’s account. Use Only to return films from
    /// the member’s friends, and All to return films from both the member and
    /// their friends.
    pub include_friends: Option<IncludeFriends>,
    /// Specify a tag code to limit the returned films to those tagged
    /// accordingly.
    pub tag_code: Option<String>,
    /// Must be used with tag. Specify the LID of a member to focus the tag
    /// filter on the member.
    pub tagger: Option<String>,
    /// Must be used in conjunction with tagger. Defaults to None, which
    /// filters tags set by the member. Use Only to filter tags set by the
    /// member’s friends, and All to filter tags set by both the member and
    /// their friends.
    pub include_tagger_friends: Option<IncludeFriends>,
}

impl Default for FilmsRequest {
    /// The request that asks for nothing in particular: no field is set.
    fn default() -> (request: Self)
        ensures
            request.cursor is None,
            request.per_page is None,
            request.sort is None,
            request.genre is None,
            request.decade is None,
            request.year is None,
            request.service is None,
            request.where_film_status@.len() == 0,
            request.member is None,
            request.member_relationship is None,
            request.include_friends is None,
            request.tag_code is None,
            request.tagger is None,
            request.include_tagger_friends is None,
    {
        FilmsRequest {
            cursor: None,
            per_page: None,
            sort: None,
            genre: None,
            decade: None,
            year: None,
            service: None,
            where_film_status: Vec::new(),
            member: None,
            member_relationship: None,
            include_friends: None,
            tag_code: None,
            tagger: None,
            include_tagger_friends: None,
        }
    }
}

#[derive(Debug, Clone)]
pub struct Genre {
    /// The LID of the genre.
    pub id: String,
    /// The name of the genre.
    pub name: String,
}

#[derive(Debug, Clone)]
pub struct GenresResponse {
    /// The list of genres.
    pub items: Vec<Genre>,
}

#[derive(Debug, Clone)]
pub struct Image {
    /// The available sizes for the image.
    pub sizes: Vec<ImageSize>,
}

#[derive(Debug, Clone)]
pub struct ImageSize {
    /// The image width in pixels.
    pub width: usize,
    /// The image height in pixels.
    pub height: usize,
    /// The URL to the image file.
    pub url: String,
}

#[derive(Debug, Clone)]
pub enum Link {
    Letterboxd {
        ///   The object ID for the linked entity on the destination site.
        id: String,
        ///   The fully qualified URL on the destination site.
        url: String,
    },
    Tmdb {
        ///   The object ID for the linked entity on the destination site.
        id: String,
        ///   The fully qualified URL on the destination site.
        url: String,
    },
    Imdb {
        ///   The object ID for the linked entity on the destination site.
        id: String,
        ///   The fully qualified URL on the destination site.
        url: String,
    },
    Gwi {
        ///   The object ID for the linked entity on the destination site.
        id: String,
        ///   The fully qualified URL on the destination site.
        url: String,
    },
}

#[derive(Debug, Clone)]
pub struct ListCreateEntry {
    /// The LID of the film.
    pub film: String,
    /// The entry’s rank in the list, numbered from 1. If not set, the entry
    /// will be appended to the end of the list. Sending two or more
    /// ListCreateEntrys with the same rank will return an error.
    pub rank: usize,
    /// The notes for the list entry in LBML. May contain the following HTML tags: `<br>` `<strong>` `<em>` `<b>` `<i>` `<a href="">` `<blockquote>`.
    pub notes: String,
    /// Set to true if the member has indicated that the notes field contains
    /// plot spoilers for the film.
    pub contains_spoilers: bool,
}

#[derive(Debug, Clone)]
pub enum ListCreateMessageCode {
    ListNameIsBlank,
    UnknownFilmCode,
    InvalidRatingValue,
    DuplicateRank,
    EmptyPublicList,
    CloneSourceNotFound,
    SharingServiceNotAuthorized,
    CannotSharePrivateList,
    ListDescriptionIsTooLong,
    ListEntryNotesTooLong,
}

#[derive(Debug, Clone)]
pub enum ListCreateMessage {
    Error {
        /// The error message code.
        code: ListCreateMessageCode,
        /// The error message text in human-readable form.
        title: String,
    },
    Success,
}

#[derive(Debug, Clone)]
pub struct ListCreationRequest {
    /// The name of the list.
    pub name: String,
    /// Set to true if the owner has elected to publish the list for other
    /// members to see.
    pub published: bool,
    /// Set to true if the owner has elected to make this a ranked list.
    pub ranked: bool,
    /// The list description in LBML. May contain the following HTML tags:
    /// `<br>` `<strong>` `<em>` `<b>` `<i>` `<a href="">` `<blockquote>`. This
    /// field has a maximum size of 100,000 characters.
    pub description: Option<String>,
    /// The LID of a list to clone from. Only supported for paying members.
    pub cloned_from: Option<String>,
    /// The tags for the list.
    pub tags: Vec<String>,
    /// The films that comprise the list. Required unless source is set.
    pub entries: Vec<ListCreateEntry>,
    /// The third-party service or services to which this list should be shared. Valid options are found in the MemberAccount.authorizedSharingServicesForLists (see the /me endpoint).
    pub share: Vec<ThirdPartyService>,
}

impl ListCreationRequest {
    /// A request to create a list of the given name that is neither published
    /// nor ranked and has no description, source, tags, entries or shares.
    pub fn new(name: String) -> (request: Self)
        ensures
            request.name == name,
            !request.published,
            !request.ranked,
            request.description is None,
            request.cloned_from is None,
            request.tags@.len() == 0,
            request.entries@.len() == 0,
            request.share@.len() == 0,
    {
        Self {
            name: name,
            published: false,
            ranked: false,
            description: None,
            cloned_from: None,
            tags: Vec::new(),
            entries: Vec::new(),
            share: Vec::new(),
        }
    }
}

#[derive(Debug, Clone)]
pub struct ListIdentifier {
    /// The LID of the list.
    pub id: String,
}

#[derive(Debug, Clone)]
pub struct ListUpdateEntry {
    /// The LID of the film.
    pub film: String,
    /// The entry’s rank in the list, numbered from 1. If not set, the entry
    /// will stay in the same place (if already in the list) or be appended to
    /// the end of the list (if not in the list). If set, any entries at or
    /// after this position will be incremented by one. Sending two or more
    /// ListUpdateEntrys with the same rank will return an error.
    pub rank: Option<usize>,
    /// The notes for the list entry in LBML. May contain the following HTML
    /// tags: `<br>` `<strong>` `<em>` `<b>` `<i>` `<a href="">`
    /// `<blockquote>`. This field has a maximum size of 100,000 characters.
    pub notes: Option<String>,
    /// Set to true if the member has indicated that the notes field contains
    /// plot spoilers for the film.
    pub contains_spoilers: Option<bool>,
}

impl ListUpdateEntry {
    /// An entry for the given film that sets neither rank nor notes nor the
    /// spoiler mark.
    pub fn new(film: String) -> (entry: ListUpdateEntry)
        ensures
            entry.film == film,
            entry.rank is None,
            entry.notes is None,
            entry.contains_spoilers is None,
    {
        ListUpdateEntry { film: film, rank: None, notes: None, contains_spoilers: None }
    }
}

#[derive(Debug, Clone)]
pub enum ListUpdateMessageCode {
    ListNameIsBlank,
    UnknownFilmCode,
    InvalidRatingValue,
    DuplicateRank,
    EmptyPublicList,
    SharingServiceNotAuthorized,
    CannotSharePrivateList,
    ListDescriptionIsTooLong,
    ListEntryNotesTooLong,
}

#[derive(Debug, Clone)]
pub enum ListUpdateMessage {
    Error {
        /// The error message code.
        code: ListUpdateMessageCode,
        /// The error message text in human-readable form.
        title: String,
    },
    Success,
}

#[derive(Debug, Clone)]
pub struct ListUpdateRequest {
    /// Set to true if the owner has elected to publish the list for other
    /// members to see.
    pub published: Option<bool>,
    /// The name of the list.
    pub name: String,
    /// Set to true if the owner has elected to make this a ranked list.
    pub ranked: Option<bool>,
    /// The list description in LBML. May contain the following HTML tags:
    /// `<br>` `<strong>` `<em>` `<b>` `<i>` `<a href="">` `<blockquote>`. This
    /// field has a maximum size of 100,000 characters.
    pub description: Option<String>,
    /// The tags for the list.
    pub tags: Vec<String>,
    /// Specify the LIDs of films to be removed from the list.
    pub films_to_remove: Vec<String>,
    /// The specified entries will be inserted/appended to the list if they are
    /// not already present, or updated if they are present.
    pub entries: Vec<ListUpdateEntry>,
    /// The third-party service or services to which this list should be
    /// shared. Valid options are found in the ListRelationship (see the
    /// /list/{id}/me endpoint).
    pub share: Vec<ThirdPartyService>,
}

impl ListUpdateRequest {
    /// An update that names the list and changes nothing else.
    pub fn new(name: String) -> (request: ListUpdateRequest)
        ensures
            request.name == name,
            request.published is None,
            request.ranked is None,
            request.description is None,
            request.tags@.len() == 0,
            request.films_to_remove@.len() == 0,
            request.entries@.len() == 0,
            request.share@.len() == 0,
    {
        ListUpdateRequest {
            published: None,
            name: name,
            ranked: None,
            description: None,
            tags: Vec::new(),
            films_to_remove: Vec::new(),
            entries: Vec::new(),
            share: Vec::new(),
        }
    }
}

#[derive(Debug, Clone)]
pub enum ListRequestSort {
    Date,
    WhenCreatedLatestFirst,
    WhenCreatedEarliestFirst,
    ListName,
    ListPopularity,
    ListPopularityThisWeek,
    ListPopularityThisMonth,
    ListPopularityThisYear,
    ListPopularityWithFriends,
    ListPopularityWithFriendsThisWeek,
    ListPopularityWithFriendsThisMonth,
    ListPopularityWithFriendsThisYear,
}

#[derive(Debug, Clone)]
pub enum ListMemberRelationship {
    Owner,
    Liked,
}

#[derive(Debug, Clone)]
pub enum ListStatus {
    Clean,
    Published,
    Unpublished,
}

#[derive(Debug, Clone)]
pub enum ListRequestFilter {
    NoDuplicateMembers,
}

#[derive(Debug, Clone)]
pub struct ListsRequest {
    /// The pagination cursor.
    pub cursor: Option<Cursor>,
    /// The number of items to include per page (default is 20, maximum is 100).
    pub per_page: Option<usize>,
    /// Defaults to Date, which returns lists that were most recently
    /// created/updated first. The ListPopularityWithFriends values are only
    /// available to signed-in members and consider popularity amongst the
    /// signed-in member’s friends.
    pub sort: Option<ListRequestSort>,
    /// Specify the LID of a film to return lists that include that film.
    pub film: Option<String>,
    /// Specify the LID of a list to return lists that were cloned from that
    /// list.
    pub cloned_from: Option<String>,
    /// Specify a tag code to limit the returned lists to those tagged
    /// accordingly. Must be used with member and memberRelationship=Owner.
    pub tag_code: Option<String>,
    /// Specify the LID of a member to return lists that are owned or liked by
    /// the member (or their friends, when used with includeFriends).
    pub member: Option<String>,
    /// Must be used in conjunction with member. Defaults to Owner, which
    /// returns lists owned by the specified member. Use Liked to return lists
    /// liked by the member.
    pub member_relationship: Option<ListMemberRelationship>,
    /// Must be used in conjunction with member. Defaults to None, which only
    /// returns lists from the member’s account. Use Only to return lists from
    /// the member’s friends, and All to return lists from both the member and
    /// their friends.
    pub include_friends: Option<IncludeFriends>,
    /// Specify Clean to return lists that do not contain profane language.
    /// Specify Published to return the member’s lists that have been made
    /// public. Note that unpublished lists for members other than the
    /// authenticated member are never returned. Specify NotPublished to return
    /// the authenticated member’s lists that have not been made public.
    pub where_list_status: Vec<ListStatus>,
    /// Specify NoDuplicateMembers to limit the list to only the first list for
    /// each member. filter=NoDuplicateMembers
    pub filter: Vec<ListRequestFilter>,
}

impl Default for ListsRequest {
    /// The request that asks for nothing in particular: no field is set.
    fn default() -> (request: Self)
        ensures
            request.cursor is None,
            request.per_page is None,
            request.sort is None,
            request.film is None,
            request.cloned_from is None,
            request.tag_code is None,
            request.member is None,
            request.member_relationship is None,
            request.include_friends is None,
            request.where_list_status@.len() == 0,
            request.filter@.len() == 0,
    {
        ListsRequest {
            cursor: None,
            per_page: None,
            sort: None,
            film: None,
            cloned_from: None,
            tag_code: None,
            member: None,
            member_relationship: None,
            include_friends: None,
            where_list_status: Vec::new(),
            filter: Vec::new(),
        }
    }
}

#[derive(Debug, Clone)]
pub enum MemberFilmRelationshipsRequestSort {
    Date,
    Name,
    MemberPopularity,
    MemberPopularityThisWeek,
    MemberPopularityThisMonth,
    MemberPopularityThisYear,
    MemberPopularityWithFriends,
    MemberPopularityWithFriendsThisWeek,
    MemberPopularityWithFriendsThisMonth,
    MemberPopularityWithFriendsThisYear,
}

#[derive(Debug, Clone)]
pub struct MemberFilmRelationshipsRequest {
    /// The pagination cursor.
    pub cursor: Option<Cursor>,
    /// The number of items to include per page (default is 20, maximum is 100).
    pub per_page: Option<usize>,
    /// Defaults to Date, which has different semantics based on the request:
    /// When review is specified, members who most recently liked the review
    /// appear first.
    /// When list is specified, members who most recently liked the list appear
    /// first.
    /// When film is specified and filmRelationship=Watched, members who most
    /// recently watched the film appear first.
    /// When film is specified and filmRelationship=Liked, members who most
    /// recently liked the film appear first.
    /// When member is specified and memberRelationship=IsFollowing, most
    /// recently followed members appear first.
    /// When member is specified and memberRelationship=IsFollowedBy, most
    /// recent followers appear first.
    /// Otherwise, members who most recently joined the site appear first.
    /// The PopularWithFriends values are only available to authenticated
    /// members and consider popularity amongst the member’s friends.
    pub sort: Option<MemberFilmRelationshipsRequestSort>,
    /// Specify the LID of a member to return members who follow or are
    /// followed by that member.
    pub member: Option<String>,
    /// Must be used in conjunction with member. Defaults to IsFollowing, which
    /// returns the list of members followed by the member. Use IsFollowedBy to
    /// return the list of members that follow the member.
    pub member_relationship: Option<FilmRelationshipType>,
    /// Must be used in conjunction with film. Defaults to Watched, which
    /// returns the list of members who have seen the film. Specify the type of
    /// relationship to limit the returned members accordingly.
    pub film_relationship: Option<FilmRelationshipType>,
}

impl Default for MemberFilmRelationshipsRequest {
    /// The request that asks for nothing in particular: no field is set.
    fn default() -> (request: Self)
        ensures
            request.cursor is None,
            request.per_page is None,
            request.sort is None,
            request.member is None,
            request.member_relationship is None,
            request.film_relationship is None,
    {
        MemberFilmRelationshipsRequest {
            cursor: None,
            per_page: None,
            sort: None,
            member: None,
            member_relationship: None,
            film_relationship: None,
        }
    }
}

#[derive(Debug, Clone)]
pub enum MemberStatus {
    Crew,
    Patron,
    Pro,
    Member,
}

#[derive(Debug, Clone)]
pub struct MemberSummary {
    /// The LID of the member.
    pub id: String,
    /// The member’s Letterboxd username. Usernames must be between 2 and 15
    /// characters long and
    /// may only contain upper or lowercase letters, numbers or the underscore
    /// (_) character.
    pub username: String,
    /// The given name of the member.
    pub given_name: Option<String>,
    /// The family name of the member.
    pub family_name: Option<String>,
    /// A convenience method that returns the member’s given name and family
    /// name concatenated with
    /// a space, if both are set, or just their given name or family name, if
    /// one is set, or their
    /// username, if neither is set. Will never be empty.
    pub display_name: String,
    /// A convenience method that returns the member’s given name, if set, or
    /// their username. Will never be empty.
    pub short_name: String,
    /// The member’s preferred pronoun set. Use the /members/pronouns endpoint
    /// to request all available pronoun sets.
    pub pronoun: Pronoun,
    /// The member’s avatar image at multiple sizes.
    pub avatar: Image,
    /// The member’s account type.
    pub member_status: MemberStatus,
}

#[derive(Debug, Clone)]
pub struct Pronoun {
    /// The LID for this pronoun set.
    pub id: String,
    /// A label to describe this pronoun set.
    pub label: String,
    /// The pronoun to use when the member is the subject. "She went to the
    /// movies."
    pub subject_pronoun: String,
    /// The pronoun to use when the member is the object. "I went with her to
    /// the cinema."
    pub object_pronoun: String,
    /// The adjective to use when describing a specified thing or things
    /// belonging to or associated with a member previously mentioned. "He
    /// bought his tickets."
    pub possessive_adjective: String,
    /// The pronoun to use when referring to a specified thing or things
    /// belonging to or associated with a member previously mentioned. "That
    /// popcorn was hers."
    pub possessive_pronoun: String,
    /// The pronoun to use to refer back to the member. "He saw himself as a
    /// great director."
    pub reflexive: String,
}

#[derive(Debug, Clone)]
pub enum ThirdPartyService {
    Facebook,
}

#[derive(Debug, Clone)]
pub struct Review {
    /// The review text in LBML. May contain the following HTML tags: `<br>`
    /// `<strong>` `<em>` `<b>` `<i>` `<a href="">` `<blockquote>`.
    pub lbml: String,
    /// Will be true if the member has indicated that the review field contains
    /// plot spoilers for the film.
    pub contains_spoilers: bool,
    /// The third-party service or services to which this review can be shared.
    /// Only included if the authenticated member is the review’s owner.
    pub can_share_on: Option<ThirdPartyService>,
    /// The third-party service or services to which this review has been shared. Only included if the authenticated member is the review’s owner.
    pub shared_on: Option<ThirdPartyService>,
    /// The timestamp when this log entry’s review was first published, in ISO
    /// 8601 format with UTC timezone, i.e. YYYY-MM-DDThh:mm:ssZ
    /// "1997-08-29T07:14:00Z"
    pub when_reviewed: String,
    /// The review text formatted as HTML.
    pub text: String,
}

#[derive(Debug, Clone)]
pub enum SearchMethod {
    FullText,
    Autocomplete,
}

#[derive(Debug, Clone)]
pub struct SearchRequest {
    /// The pagination cursor.
    pub cursor: Option<Cursor>,
    /// The number of items to include per page (default is 20, maximum is 100).
    pub per_page: Option<usize>,
    /// The word, partial word or phrase to search for.
    pub input: String,
    /// The type of search to perform. Defaults to FullText, which performs a
    /// standard search considering text in all fields. Autocomplete only
    /// searches primary fields.
    pub search_method: Option<SearchMethod>,
    /// The types of results to search for. Default to all SearchResultTypes.
    pub include_types: Option<Vec<SearchResultType>>,
    /// The type of contributor to search for. Implies
    /// include=ContributorSearchItem.
    pub contribution_type: Option<ContributionType>,
}

impl SearchRequest {
    /// A search for the given input with every other field unset.
    pub fn new(input: String) -> (request: SearchRequest)
        ensures
            request.input == input,
            request.cursor is None,
            request.per_page is None,
            request.search_method is None,
            request.include_types is None,
            request.contribution_type is None,
    {
        SearchRequest {
            cursor: None,
            per_page: None,
            input: input,
            search_method: None,
            include_types: None,
            contribution_type: None,
        }
    }
}

#[derive(Debug, Clone)]
pub enum SearchResultType {
    ContributorSearchItem,
    FilmSearchItem,
    ListSearchItem,
    MemberSearchItem,
    /// Details of the review.
    ReviewSearchItem,
    TagSearchItem,
}

#[derive(Debug, Clone)]
pub struct Service {
    /// The LID of the service.
    pub id: String,
    /// The name of the service.
    pub name: String,
}

#[derive(Debug, Clone)]
pub struct Tag {
    /// The tag code.
    pub code: String,
    /// The tag text as entered by the tagger.
    pub display_tag: String,
}

#[derive(Debug, Clone)]
pub enum WatchlistSort {
    Added,
    FilmName,
    ReleaseDateLatestFirst,
    ReleaseDateEarliestFirst,
    RatingHighToLow,
    RatingLowToHigh,
    FilmDurationShortestFirst,
    FilmDurationLongestFirst,
    FilmPopularity,
    FilmPopularityThisWeek,
    FilmPopularityThisMonth,
    FilmPopularityThisYear,
}

#[derive(Debug, Clone)]
pub enum IncludeFriends {
    NoFriends,
    All,
    Only,
}

} // verus!
