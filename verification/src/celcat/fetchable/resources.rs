//! Resource lists: paged directory listings of the resources of one kind,
//! and the typed resources built from their raw rows.

use vstd::prelude::*;

use crate::celcat::fetchable::Fetchable;
use crate::celcat::resource::{ModuleId, ResourceId, ResourceType, ResourceTypeTrait, WrapResourceType};

verus! {

/// One raw row of a resource listing.
#[derive(Debug, Clone)]
pub struct RawResource {
    pub id: String,
    pub text: String,
    pub dept: Option<String>,
}

/// A typed resource that can be built from a raw listing row.
pub trait Resource: Sized {
    type ResourceType: ResourceTypeTrait;

    /// The characters of this resource's identifier.
    spec fn spec_id(&self) -> Seq<char>;

    /// Builds the typed resource from a raw row; `None` where the row does
    /// not form a valid resource of this kind. A resource that is built
    /// keeps the row's identifier.
    fn from_raw(raw: RawResource) -> (r: Option<Self>)
        ensures
            r matches Some(f) ==> f.spec_id() == raw.id@,
    ;

    /// The identifier of this resource.
    fn id(&self) -> (r: <Self::ResourceType as ResourceTypeTrait>::Id)
        ensures
            r.id_view() == self.spec_id(),
    ;
}

/// The reply of the resource-listing endpoint.
#[derive(Debug)]
pub struct ResourceList<R: Resource> {
    pub total: u64,
    pub results: Vec<R>,
}

/// The request for one page of the resource listing of one kind.
#[derive(Debug)]
pub struct ResourceListRequest<T: ResourceTypeTrait> {
    pub my_resources: bool,
    pub search_term: String,
    pub page_size: u64,
    pub page_number: u64,
    pub res_type: WrapResourceType<T>,
}

impl<R: Resource> Fetchable for ResourceList<R> {
    type Request = ResourceListRequest<R::ResourceType>;

    fn method_name() -> &'static str {
        "ReadResourceListItems"
    }
}

/// A formation: the resource of the module kind.
#[derive(Debug, Clone, PartialEq, Eq)]
pub struct Formation {
    pub id: ModuleId,
}

impl Resource for Formation {
    type ResourceType = crate::celcat::resource::Module;

    open spec fn spec_id(&self) -> Seq<char> {
        self.id.id_view()
    }

    fn from_raw(raw: RawResource) -> (r: Option<Self>) {
        Some(Formation { id: ModuleId(raw.id) })
    }

    fn id(&self) -> (r: ModuleId) {
        ModuleId(self.id.0.clone())
    }
}

/// The runtime kind of a typed resource agrees with its marker.
pub fn resource_kind_of<R: Resource>() -> (t: ResourceType)
    ensures
        t == <R::ResourceType as ResourceTypeTrait>::spec_tag(),
{
    <R::ResourceType as ResourceTypeTrait>::type_tag()
}

} // verus!
