//! The names by which projects, instances and databases are known to the
//! service.

use crate::text::joined;
use vstd::prelude::*;
use vstd::string::*;

verus! {

/// A resource of the service that has a name of the form `<kind>/<name>`,
/// where the kind is a plural such as `projects` or `databases`, under the
/// name of the resource that it belongs to.
///
/// The database `my-database` of the instance `my-instance` of the project
/// `my-gcp-project` is
/// `projects/my-gcp-project/instances/my-instance/databases/my-database`.
pub trait SpannerResource {
    /// The name of this resource among the resources of its kind.
    spec fn spec_name(&self) -> Seq<char>;

    /// The path under which all resources of this kind with the same parent
    /// are found.
    spec fn spec_resources_path(&self) -> Seq<char>;

    /// The name of this resource among the resources of its kind.
    fn name(&self) -> (r: &str)
        ensures
            r@ == self.spec_name(),
    ;

    /// The path under which all resources of this kind with the same parent
    /// are found, such as `projects/my-project/instances`.
    fn resources_path(&self) -> (r: String)
        ensures
            r@ == self.spec_resources_path(),
    ;

    /// The full path of this resource, such as
    /// `projects/my-project/instances/my-instance`.
    fn id(&self) -> (r: String)
        ensures
            r@ == self.spec_resources_path() + "/"@ + self.spec_name(),
    {
        let mut path = self.resources_path();
        path.append("/");
        path.append(self.name());
        path
    }
}

/// The name of a project.
#[derive(Debug, Clone, PartialEq, Eq)]
pub struct ProjectId(pub String);

impl ProjectId {
    /// The project with the given name.
    pub fn new(name: &str) -> (r: Self)
        ensures
            r.0@ == name@,
    {
        Self(String::from_str(name))
    }
}

impl SpannerResource for ProjectId {
    open spec fn spec_name(&self) -> Seq<char> {
        self.0@
    }

    open spec fn spec_resources_path(&self) -> Seq<char> {
        "projects"@
    }

    fn name(&self) -> (r: &str) {
        self.0.as_str()
    }

    fn resources_path(&self) -> (r: String) {
        String::from_str("projects")
    }
}

/// The name of an instance of the database service in a project.
#[derive(Debug, Clone, PartialEq, Eq)]
pub struct InstanceId(pub ProjectId, pub String);

impl InstanceId {
    /// The instance with the given name in the given project.
    pub fn new(project: ProjectId, name: &str) -> (r: Self)
        ensures
            r.0 == project,
            r.1@ == name@,
    {
        Self(project, String::from_str(name))
    }

    /// The project that this instance belongs to.
    pub fn project(&self) -> (r: &ProjectId)
        ensures
            *r == self.0,
    {
        &self.0
    }
}

impl SpannerResource for InstanceId {
    open spec fn spec_name(&self) -> Seq<char> {
        self.1@
    }

    open spec fn spec_resources_path(&self) -> Seq<char> {
        "projects"@ + "/"@ + self.0.0@ + "/instances"@
    }

    fn name(&self) -> (r: &str) {
        self.1.as_str()
    }

    fn resources_path(&self) -> (r: String) {
        joined(self.0.id().as_str(), "/instances")
    }
}

/// The name of a database in an instance.
#[derive(Debug, Clone, PartialEq, Eq)]
pub struct DatabaseId(pub InstanceId, pub String);

impl DatabaseId {
    /// The database with the given name in the given instance.
    pub fn new(instance: InstanceId, name: &str) -> (r: Self)
        ensures
            r.0 == instance,
            r.1@ == name@,
    {
        Self(instance, String::from_str(name))
    }
}

impl SpannerResource for DatabaseId {
    open spec fn spec_name(&self) -> Seq<char> {
        self.1@
    }

    open spec fn spec_resources_path(&self) -> Seq<char> {
        "projects"@ + "/"@ + self.0.0.0@ + "/instances"@ + "/"@ + self.0.1@ + "/databases"@
    }

    fn name(&self) -> (r: &str) {
        self.1.as_str()
    }

    fn resources_path(&self) -> (r: String) {
        joined(self.0.id().as_str(), "/databases")
    }
}

} // verus!
