//! The calls of the API: for each, the method, the path under the base
//! address, and whether the bearer token goes out with it.

use crate::signing::Method;
use vstd::prelude::*;
use vstd::string::*;

verus! {

/// One call of the API.
///
/// `requires_auth` says whether the client's token is sent along. It is
/// set on the calls that create, update or remove, and on no call that
/// reads.
#[derive(Debug, Clone)]
pub struct Endpoint {
    pub method: Method,
    pub path: String,
    pub requires_auth: bool,
}

impl Endpoint {
    /// Whether this is the call with the given method to the given path,
    /// with authentication required as the method asks.
    pub open spec fn is_call(&self, method: Method, path: Seq<char>) -> bool {
        self.method == method && self.path@ == path && self.requires_auth
            == method.auth_required()
    }

    /// The call with the given method to a fixed path.
    fn fixed(method: Method, path: &str) -> (endpoint: Endpoint)
        ensures
            endpoint.is_call(method, path@),
    {
        Endpoint { method, path: String::from_str(path), requires_auth: method.requires_auth() }
    }

    /// The call with the given method to the path of an entity: a prefix,
    /// the entity's LID, and what follows it.
    fn of_entity(method: Method, prefix: &str, id: &str, suffix: &str) -> (endpoint: Endpoint)
        ensures
            endpoint.is_call(method, prefix@ + id@ + suffix@),
    {
        let mut path = String::from_str(prefix);
        path.append(id);
        path.append(suffix);
        Endpoint { method, path, requires_auth: method.requires_auth() }
    }

    /// A cursored window over the list of films.
    pub fn films() -> (endpoint: Endpoint)
        ensures
            endpoint.is_call(Method::Get, "films"@),
    {
        Self::fixed(Method::Get, "films")
    }

    /// Get a list of services supported by the /films endpoint.
    pub fn film_services() -> (endpoint: Endpoint)
        ensures
            endpoint.is_call(Method::Get, "films/film-services"@),
    {
        Self::fixed(Method::Get, "films/film-services")
    }

    /// Get a list of genres supported by the /films endpoint.
    pub fn film_genres() -> (endpoint: Endpoint)
        ensures
            endpoint.is_call(Method::Get, "films/genres"@),
    {
        Self::fixed(Method::Get, "films/genres")
    }

    /// Get details about a film by ID.
    pub fn film(id: &str) -> (endpoint: Endpoint)
        ensures
            endpoint.is_call(Method::Get, "film/"@ + id@),
    {
        let endpoint = Self::of_entity(Method::Get, "film/", id, "");
        proof {
            reveal_strlit("");
        }
        assert("film/"@ + id@ + ""@ =~= "film/"@ + id@);
        endpoint
    }

    /// Get availability data about a film by ID.
    pub fn film_availability(id: &str) -> (endpoint: Endpoint)
        ensures
            endpoint.is_call(Method::Get, "film/"@ + id@ + "/availability"@),
    {
        Self::of_entity(Method::Get, "film/", id, "/availability")
    }

    /// Get details of the authenticated member's relationship with a film
    /// by ID.
    pub fn film_relationship(id: &str) -> (endpoint: Endpoint)
        ensures
            endpoint.is_call(Method::Get, "film/"@ + id@ + "/me"@),
    {
        Self::of_entity(Method::Get, "film/", id, "/me")
    }

    /// Update the authenticated member's relationship with a film by ID.
    pub fn update_film_relationship(id: &str) -> (endpoint: Endpoint)
        ensures
            endpoint.is_call(Method::Patch, "film/"@ + id@ + "/me"@),
    {
        Self::of_entity(Method::Patch, "film/", id, "/me")
    }

    /// Get details of the members' relationships with a film by ID.
    pub fn film_relationship_members(id: &str) -> (endpoint: Endpoint)
        ensures
            endpoint.is_call(Method::Get, "film/"@ + id@ + "/members"@),
    {
        Self::of_entity(Method::Get, "film/", id, "/members")
    }

    /// Get statistical data about a film by ID.
    pub fn film_statistics(id: &str) -> (endpoint: Endpoint)
        ensures
            endpoint.is_call(Method::Get, "film/"@ + id@ + "/statistics"@),
    {
        Self::of_entity(Method::Get, "film/", id, "/statistics")
    }

    /// A cursored window over a list of lists.
    pub fn lists() -> (endpoint: Endpoint)
        ensures
            endpoint.is_call(Method::Get, "lists"@),
    {
        Self::fixed(Method::Get, "lists")
    }

    /// Create a list.
    pub fn create_list() -> (endpoint: Endpoint)
        ensures
            endpoint.is_call(Method::Post, "lists"@),
    {
        Self::fixed(Method::Post, "lists")
    }

    /// Get details of a list by ID.
    pub fn list(id: &str) -> (endpoint: Endpoint)
        ensures
            endpoint.is_call(Method::Get, "list/"@ + id@),
    {
        let endpoint = Self::of_entity(Method::Get, "list/", id, "");
        proof {
            reveal_strlit("");
        }
        assert("list/"@ + id@ + ""@ =~= "list/"@ + id@);
        endpoint
    }

    /// Update a list by ID.
    pub fn update_list(id: &str) -> (endpoint: Endpoint)
        ensures
            endpoint.is_call(Method::Patch, "list/"@ + id@),
    {
        let endpoint = Self::of_entity(Method::Patch, "list/", id, "");
        proof {
            reveal_strlit("");
        }
        assert("list/"@ + id@ + ""@ =~= "list/"@ + id@);
        endpoint
    }

    /// Delete a list by ID.
    pub fn delete_list(id: &str) -> (endpoint: Endpoint)
        ensures
            endpoint.is_call(Method::Delete, "list/"@ + id@),
    {
        let endpoint = Self::of_entity(Method::Delete, "list/", id, "");
        proof {
            reveal_strlit("");
        }
        assert("list/"@ + id@ + ""@ =~= "list/"@ + id@);
        endpoint
    }

    /// Get entries for a list by ID.
    pub fn list_entries(id: &str) -> (endpoint: Endpoint)
        ensures
            endpoint.is_call(Method::Get, "list/"@ + id@ + "/entries"@),
    {
        Self::of_entity(Method::Get, "list/", id, "/entries")
    }

    /// Search for any data.
    pub fn search() -> (endpoint: Endpoint)
        ensures
            endpoint.is_call(Method::Get, "search"@),
    {
        Self::fixed(Method::Get, "search")
    }
}

} // verus!
