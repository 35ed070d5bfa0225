//! The working directory: the root under which the manager keeps its
//! `templates`, `services` and `data` trees, together with the templates and
//! services that discovery found there. Walking the disk is the caller's
//! input/output work; this type only holds what was found and derives the
//! well-known child paths.

use vstd::prelude::*;

use crate::service::ServiceInformation;
use crate::template::TemplateInfomation;

verus! {

/// A child path directly under `base`.
pub open spec fn spec_child_path(base: Seq<char>, seg: Seq<char>) -> Seq<char> {
    base + seq!['/'] + seg
}

/// The manager's working directory and what discovery found in it.
#[derive(Debug, Clone)]
pub struct WorkDirectory {
    pub path: String,
    pub templates: Vec<TemplateInfomation>,
    pub services: Vec<ServiceInformation>,
}

impl WorkDirectory {
    /// A working directory rooted at `path`, holding the discovered
    /// templates and services.
    pub fn new(path: String, templates: Vec<TemplateInfomation>, services: Vec<
        ServiceInformation,
    >) -> (r: WorkDirectory)
        ensures
            r.path == path,
            r.templates == templates,
            r.services == services,
    {
        WorkDirectory { path, templates, services }
    }

    /// The discovered templates.
    pub fn templates(self) -> (r: Vec<TemplateInfomation>)
        ensures
            r == self.templates,
    {
        self.templates
    }

    /// The discovered services.
    pub fn services(self) -> (r: Vec<ServiceInformation>)
        ensures
            r == self.services,
    {
        self.services
    }

    /// Where services keep their persistent state.
    pub fn data_directory(self) -> (r: String)
        ensures
            r@ == spec_child_path(self.path@, "data"@),
    {
        let ghost base = self.path@;
        let mut p = self.path;
        p.push('/');
        p.append("data");
        proof {
            assert(p@ =~= spec_child_path(base, "data"@));
        }
        p
    }

    /// Where the templates live.
    pub fn template_directory(self) -> (r: String)
        ensures
            r@ == spec_child_path(self.path@, "templates"@),
    {
        let ghost base = self.path@;
        let mut p = self.path;
        p.push('/');
        p.append("templates");
        proof {
            assert(p@ =~= spec_child_path(base, "templates"@));
        }
        p
    }

    /// Where the service instances live.
    pub fn service_directory(self) -> (r: String)
        ensures
            r@ == spec_child_path(self.path@, "services"@),
    {
        let ghost base = self.path@;
        let mut p = self.path;
        p.push('/');
        p.append("services");
        proof {
            assert(p@ =~= spec_child_path(base, "services"@));
        }
        p
    }
}

} // verus!
