use vstd::prelude::*;
use crate::openapi::MediaType;
use indexmap::IndexMap;

verus! {

/// The ordered map of `indexmap`, which holds the content maps of bodies and
/// responses; Verus sees nothing inside it.
#[verifier::external_type_specification]
#[verifier::external_body]
#[verifier::reject_recursive_types(K)]
#[verifier::reject_recursive_types(V)]
#[verifier::reject_recursive_types(S)]
pub struct ExIndexMap<K, V, S>(IndexMap<K, V, S>);

/// The entries of a content map (content type, media type), in insertion order.
pub uninterp spec fn content_entries(m: IndexMap<String, MediaType>) -> Seq<(Seq<char>, MediaType)>;

/// Relies on `IndexMap::new`: a new map holds no entries.
#[verifier::external_body]
pub(crate) fn empty_content() -> (r: IndexMap<String, MediaType>)
    ensures
        content_entries(r) == Seq::<(Seq<char>, MediaType)>::empty(),
{
    IndexMap::new()
}

/// Relies on `IndexMap::from` on a one-element array: the map holds exactly
/// that entry.
#[verifier::external_body]
pub(crate) fn single_content(content_type: String, media: MediaType) -> (r: IndexMap<String, MediaType>)
    ensures
        content_entries(r) == seq![(content_type@, media)],
{
    IndexMap::from([(content_type, media)])
}

} // verus!
