//! A typed client library for the Letterboxd API, which gives access to the
//! data of the Letterboxd.com website.
//!
//! The library holds what a client decides and computes:
//!
//! * [`signing`]: the signature that every request carries. Method, URL and
//!   body are joined into one message, and its keyed hash is appended to
//!   the URL.
//! * [`client`]: the client's state (API key pair and optional access
//!   token), the request that a call becomes, and what a response means.
//! * [`endpoint`]: the calls of the API with their methods and paths.
//! * [`error`]: the kinds of error.
//! * [`form`]: the form encoding of the values that go out in a form.
//! * [`defs`]: the data types of requests and responses.
//!
//! Sending a request over the network is left to the caller: a call is
//! prepared with [`Client::prepare_call`], sent by whatever HTTP stack the
//! program uses, and its response is read with
//! [`read_response`](client::read_response).
//!
//! Entities are identified in the API by Letterboxd ID (or LID), an
//! alpha-numeric string value that is returned where appropriate. For films,
//! lists and reviews, the LID can also be found through the Letterboxd
//! website as the path portion of the entity's shareable boxd.it link.
//!
//! For more information, cf. API docs at http://api-docs.letterboxd.com.

pub mod client;
pub mod defs;
pub mod endpoint;
pub mod error;
pub mod form;
pub mod helper;
pub mod signing;
pub mod text;

pub use client::ApiKeyPair;
pub use client::Client;
pub use client::Header;
pub use client::Request;
pub use endpoint::Endpoint;
pub use error::Error;
pub use error::Kind;
pub use error::Result;
pub use error::StatusCode;
pub use helper::hmac_sha256;
pub use helper::nonce;
pub use helper::now;
pub use helper::Nonce;
pub use signing::Method;

pub use defs::Cursor;
pub use defs::AccessToken;
pub use defs::CommentCreationRequest;
pub use defs::ContributionType;
pub use defs::Contributor;
pub use defs::ContributorSummary;
pub use defs::Country;
pub use defs::DiaryDetails;
pub use defs::FilmAvailability;
pub use defs::FilmAvailabilityResponse;
pub use defs::FilmAvailabilityService;
pub use defs::FilmContributions;
pub use defs::FilmIdentifier;
pub use defs::FilmRelationshipType;
pub use defs::FilmRelationshipUpdateMessage;
pub use defs::FilmRelationshipUpdateMessageCode;
pub use defs::FilmRequestSort;
pub use defs::FilmServicesResponse;
pub use defs::FilmStatisticsCounts;
pub use defs::FilmStatus;
pub use defs::FilmTrailer;
pub use defs::FilmsRequest;
pub use defs::Genre;
pub use defs::GenresResponse;
pub use defs::Image;
pub use defs::ImageSize;
pub use defs::IncludeFriends;
pub use defs::Link;
pub use defs::ListCreateEntry;
pub use defs::ListCreateMessage;
pub use defs::ListCreateMessageCode;
pub use defs::ListCreationRequest;
pub use defs::ListIdentifier;
pub use defs::ListMemberRelationship;
pub use defs::ListRequestFilter;
pub use defs::ListRequestSort;
pub use defs::ListStatus;
pub use defs::ListUpdateEntry;
pub use defs::ListUpdateMessage;
pub use defs::ListUpdateMessageCode;
pub use defs::ListUpdateRequest;
pub use defs::ListsRequest;
pub use defs::MemberFilmRelationshipsRequest;
pub use defs::MemberFilmRelationshipsRequestSort;
pub use defs::MemberStatus;
pub use defs::MemberSummary;
pub use defs::Pronoun;
pub use defs::Review;
pub use defs::SearchMethod;
pub use defs::SearchRequest;
pub use defs::SearchResultType;
pub use defs::Service;
pub use defs::Tag;
pub use defs::ThirdPartyService;
pub use defs::WatchlistSort;
