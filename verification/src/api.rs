//! The REST surface: one controller per resource, and the description of
//! the service that its documentation shows.

use vstd::prelude::*;
use crate::utils::text::{blank, is_blank};

pub mod system;
pub mod user;

verus! {

/// Path under which the surface is served.
pub open spec fn server_path() -> Seq<char> {
    "/api"@
}

/// Name of the licence of the service.
pub open spec fn license_name() -> Seq<char> {
    "MIT"@
}

/// Where the licence can be read.
pub open spec fn license_url() -> Seq<char> {
    "https://opensource.org/licenses/MIT"@
}

/// A licence: its name and where to read it.
#[derive(Debug, Clone, PartialEq, Eq)]
pub struct License {
    pub name: String,
    pub url: String,
}

/// Whom to ask about the service.
#[derive(Debug, Clone, PartialEq, Eq)]
pub struct Contact {
    pub name: String,
    pub url: String,
}

/// What the documentation says of the service as a whole.
#[derive(Debug, Clone, PartialEq, Eq)]
pub struct ApiService {
    /// Title of the documentation.
    pub title: String,
    /// Version of the service.
    pub version: String,
    /// Path under which the surface is served.
    pub server: String,
    /// What the service is for.
    pub description: String,
    /// Licence of the service.
    pub license: License,
    /// Whom to ask, when both a name and an address are known.
    pub contact: Option<Contact>,
}

/// Mathematical content of a [`Contact`].
pub struct ContactView {
    pub name: Seq<char>,
    pub url: Seq<char>,
}

/// Mathematical content of an [`ApiService`].
pub struct ApiServiceView {
    pub title: Seq<char>,
    pub version: Seq<char>,
    pub server: Seq<char>,
    pub description: Seq<char>,
    pub license_name: Seq<char>,
    pub license_url: Seq<char>,
    pub contact: Option<ContactView>,
}

impl View for ApiService {
    type V = ApiServiceView;

    open spec fn view(&self) -> ApiServiceView {
        ApiServiceView {
            title: self.title@,
            version: self.version@,
            server: self.server@,
            description: self.description@,
            license_name: self.license.name@,
            license_url: self.license.url@,
            contact: match self.contact {
                Some(c) => Some(ContactView { name: c.name@, url: c.url@ }),
                None => None,
            },
        }
    }
}

/// The contact that the documentation shows for an author and the address
/// of the author's page: both as given, unless either is blank, in which
/// case there is no contact at all.
pub open spec fn contact_of(author: Seq<char>, github: Seq<char>) -> Option<ContactView> {
    if is_blank(author) || is_blank(github) {
        None
    } else {
        Some(ContactView { name: author, url: github })
    }
}

/// The description of the service for the given title, version, summary,
/// author and author's page.
pub open spec fn service_description(
    title: Seq<char>,
    version: Seq<char>,
    description: Seq<char>,
    author: Seq<char>,
    github: Seq<char>,
) -> ApiServiceView {
    ApiServiceView {
        title,
        version,
        server: server_path(),
        description,
        license_name: license_name(),
        license_url: license_url(),
        contact: contact_of(author, github),
    }
}

/// Describes the service for its documentation.
///
/// The surface is served under `/api` and licensed under MIT. A contact is
/// shown only when neither `author` nor `github` is blank.
pub fn create_api_service(
    title: &str,
    version: &str,
    description: &str,
    author: &str,
    github: &str,
) -> (service: ApiService)
    ensures
        service@ == service_description(title@, version@, description@, author@, github@),
{
    let mut service = ApiService {
        title: title.to_string(),
        version: version.to_string(),
        server: "/api".to_string(),
        description: description.to_string(),
        license: License {
            name: "MIT".to_string(),
            url: "https://opensource.org/licenses/MIT".to_string(),
        },
        contact: None,
    };
    if !blank(author) && !blank(github) {
        service.contact = Some(Contact { name: author.to_string(), url: github.to_string() });
    }
    service
}

} // verus!
