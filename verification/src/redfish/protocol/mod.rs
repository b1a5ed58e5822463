//! Resource bodies of the Redfish service, as plain records. The JSON field
//! of each record is its name in PascalCase unless a comment says otherwise.

pub mod chassis;
pub mod system;

use vstd::prelude::*;

verus! {

/// `Status`, the health and state of any resource that has one.
#[derive(Debug, PartialEq, Eq)]
pub struct Status {
    /// The health of the resource alone: `OK`, `Warning` or `Critical`;
    /// missing when the resource is absent.
    pub health: Option<String>,
    /// The state of the resource (`Enabled`, `Absent`, ...); a JSON `null`
    /// reads as the empty string.
    pub state: String,
}

/// A reference to another resource: `@odata.id`, or `href` on services that
/// predate it.
#[derive(Debug, PartialEq, Eq)]
pub struct Link {
    odata_id: String,
    href: String,
}

impl Link {
    pub fn new(odata_id: String, href: String) -> (r: Link)
        ensures
            r.odata_id_spec() == odata_id@,
            r.href_spec() == href@,
    {
        Link { odata_id, href }
    }

    /// The `@odata.id` member.
    pub closed spec fn odata_id_spec(&self) -> Seq<char> {
        self.odata_id@
    }

    /// The `href` member.
    pub closed spec fn href_spec(&self) -> Seq<char> {
        self.href@
    }

    /// The `@odata.id` member.
    pub fn odata_id(&self) -> (r: &str)
        ensures
            r@ == self.odata_id_spec(),
    {
        self.odata_id.as_str()
    }

    /// The `href` member.
    pub fn href(&self) -> (r: &str)
        ensures
            r@ == self.href_spec(),
    {
        self.href.as_str()
    }

    /// The path of the resource: `@odata.id`, or `href` when `@odata.id` is
    /// empty.
    pub fn path(&self) -> (r: &str)
        ensures
            r@ == (if self.odata_id_spec().len() == 0 {
                self.href_spec()
            } else {
                self.odata_id_spec()
            }),
    {
        let id = self.odata_id.as_str();
        if id.is_empty() {
            return self.href.as_str();
        }
        id
    }
}

/// A collection: the links to its members (none when absent).
#[derive(Debug, PartialEq, Eq)]
pub struct List {
    pub members: Vec<Link>,
}

/// The service root, `/redfish/v1`.
#[derive(Debug, PartialEq, Eq)]
pub struct Root {
    pub systems: Option<Link>,
    pub chassis: Option<Link>,
}

} // verus!
