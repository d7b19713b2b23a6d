//! The `plans` collection as the storage layer relies on it, and what then
//! holds of the operations on plans.
//!
//! The backend is not part of this library. [`Collection`] states what the
//! storage layer takes it to do with the documents it is sent: it keeps each
//! document under the identifier it assigned, finds, updates and removes the
//! one document whose `_id` a filter names, and applies `$set` field by
//! field. The proofs below hold of any backend that answers in this way.

use crate::db::{
    created, decoded, filter_fields, found_plan, id_field, inserted_plan, listed, patch_fields,
    plan_fields, text_field, update_fields,
};
use crate::document::{
    hex_bytes, hex_text, is_object_id_text, lemma_hex_text_reads_back, Element, Fields,
};
use crate::error::PlanError;
use crate::models::{PatchPlanView, PlanView};
use vstd::prelude::*;

verus! {

/// The document under `key`, where the field is there and holds one.
pub open spec fn nested_field(fields: Fields, key: Seq<char>) -> Option<Fields> {
    if fields.contains_key(key) {
        match fields[key] {
            Element::Nested(nested) => Some(nested),
            _ => None,
        }
    } else {
        None
    }
}

/// The documents of a collection, each under the identifier that the backend
/// assigned to it.
pub struct Collection {
    pub documents: Map<Seq<u8>, Fields>,
}

impl Collection {
    /// The document that `filter` selects: the one stored under the
    /// identifier that the filter holds as `_id`.
    pub open spec fn find_one(self, filter: Fields) -> Option<Fields> {
        match id_field(filter, "_id"@) {
            Some(id) => if self.documents.contains_key(id) {
                Some(self.documents[id])
            } else {
                None
            },
            None => None,
        }
    }

    /// The collection after the insertion of a document with `fields`, to
    /// which the backend assigned `id`: the document is stored with its
    /// identifier as `_id`.
    pub open spec fn insert_one(self, id: Seq<u8>, fields: Fields) -> Collection {
        Collection { documents: self.documents.insert(id, fields.insert("_id"@, Element::Id(id))) }
    }

    /// The collection after the update of the document that `filter`
    /// selects: each field under the update's `$set` replaces the stored
    /// field of that key, or is added, and every other field stays. Where
    /// the filter selects nothing the collection stays as it is.
    pub open spec fn find_one_and_update(self, filter: Fields, update: Fields) -> Collection {
        match (id_field(filter, "_id"@), self.find_one(filter), nested_field(update, "$set"@)) {
            (Some(id), Some(stored), Some(props)) => Collection {
                documents: self.documents.insert(id, stored.union_prefer_right(props)),
            },
            _ => self,
        }
    }

    /// The collection after the removal of the document that `filter`
    /// selects.
    pub open spec fn find_one_and_delete(self, filter: Fields) -> Collection {
        match id_field(filter, "_id"@) {
            Some(id) => Collection { documents: self.documents.remove(id) },
            None => self,
        }
    }

    /// Whether `found` is a listing of the collection: every stored document
    /// is in it, in whatever order, and nothing else is.
    pub open spec fn lists(self, found: Seq<Fields>) -> bool {
        &&& forall|id: Seq<u8>| #[trigger]
            self.documents.contains_key(id) ==> found.contains(self.documents[id])
        &&& forall|k: int|
            0 <= k < found.len() ==> exists|id: Seq<u8>|
                self.documents.contains_key(id) && self.documents[id] == #[trigger] found[k]
    }

    /// Whether every stored document holds a plan.
    pub open spec fn holds_plans(self) -> bool {
        forall|id: Seq<u8>| #[trigger]
            self.documents.contains_key(id) ==> decoded(self.documents[id]) is Some
    }

    /// The collection after the creation of `plan`, to whose document the
    /// backend assigned `id`.
    pub open spec fn create(self, plan: PlanView, id: Seq<u8>) -> Collection {
        self.insert_one(id, plan_fields(plan))
    }

    /// The collection after the creation of each of `plans` in turn, the
    /// backend having assigned `ids[k]` to the document of `plans[k]`.
    pub open spec fn create_all(self, plans: Seq<PlanView>, ids: Seq<Seq<u8>>) -> Collection
        decreases plans.len(),
    {
        if plans.len() == 0 || ids.len() != plans.len() {
            self
        } else {
            self.create_all(plans.drop_last(), ids.drop_last()).create(plans.last(), ids.last())
        }
    }

    /// What a lookup of the identifier `id` returns: `InvalidId` where `id`
    /// is not well formed, else what the document that its filter selects
    /// gives.
    pub open spec fn read(self, id: Seq<char>) -> Result<PlanView, PlanError> {
        if is_object_id_text(id) {
            found_plan(self.find_one(filter_fields(hex_bytes(id))))
        } else {
            Err(PlanError::InvalidId)
        }
    }

    /// The collection after the partial update `patch` of the plan with the
    /// identifier `id`. Nothing is sent for an identifier that is not well
    /// formed.
    pub open spec fn patch(self, id: Seq<char>, patch: PatchPlanView) -> Collection {
        if is_object_id_text(id) {
            self.find_one_and_update(filter_fields(hex_bytes(id)), update_fields(patch))
        } else {
            self
        }
    }

    /// The collection after the removal of the plan with the identifier
    /// `id`. Nothing is sent for an identifier that is not well formed.
    pub open spec fn remove(self, id: Seq<char>) -> Collection {
        if is_object_id_text(id) {
            self.find_one_and_delete(filter_fields(hex_bytes(id)))
        } else {
            self
        }
    }
}

/// The keys of a plan's document differ from one another.
proof fn lemma_keys_differ()
    ensures
        "adaptation_id"@ != "end"@,
        "adaptation_id"@ != "name"@,
        "adaptation_id"@ != "start"@,
        "adaptation_id"@ != "_id"@,
        "end"@ != "name"@,
        "end"@ != "start"@,
        "end"@ != "_id"@,
        "name"@ != "start"@,
        "name"@ != "_id"@,
        "start"@ != "_id"@,
{
    reveal_strlit("adaptation_id");
    reveal_strlit("end");
    reveal_strlit("name");
    reveal_strlit("start");
    reveal_strlit("_id");
    assert("adaptation_id"@.len() == 13);
    assert("end"@.len() == 3 && "end"@[0] == 'e');
    assert("name"@.len() == 4);
    assert("start"@.len() == 5);
    assert("_id"@.len() == 3 && "_id"@[0] == '_');
}

/// The document of a new plan, stored under an identifier, holds the plan as
/// created under it.
proof fn lemma_stored_plan_decodes(plan: PlanView, id: Seq<u8>)
    ensures
        decoded(plan_fields(plan).insert("_id"@, Element::Id(id))) == Some(created(plan, id)),
{
    lemma_keys_differ();
}

/// A plan reads back as it was created: the creation of `plan`, to whose
/// document the backend assigned `id`, returns the plan with the four fields
/// of `plan` and `id` in hexadecimal digits, and a lookup of that identifier
/// then returns the same plan.
pub proof fn created_plan_reads_back(collection: Collection, plan: PlanView, id: Seq<u8>)
    requires
        id.len() == 12,
    ensures
        inserted_plan(plan, Some(Element::Id(id))) == Ok::<PlanView, PlanError>(created(plan, id)),
        created(plan, id) == (PlanView { id: hex_text(id), ..plan }),
        collection.create(plan, id).read(hex_text(id)) == Ok::<PlanView, PlanError>(
            created(plan, id),
        ),
{
    lemma_hex_text_reads_back(id);
    lemma_stored_plan_decodes(plan, id);
}

/// A lookup changes nothing: the collection that answered a lookup is the one
/// that answers the next, so that a second lookup of one identifier, with no
/// change in between, returns what the first did.
pub proof fn read_twice_agrees(
    collection: Collection,
    id: Seq<char>,
    first: Option<Fields>,
    second: Option<Fields>,
)
    requires
        first == collection.find_one(filter_fields(hex_bytes(id))),
        second == collection.find_one(filter_fields(hex_bytes(id))),
    ensures
        found_plan(first) == found_plan(second),
        is_object_id_text(id) ==> found_plan(first) == collection.read(id),
{
}

/// A partial update changes the fields that it holds and no others: where a
/// lookup of `id` returned `plan`, after the update `patch` of `id` it
/// returns `plan` with each field that `patch` holds in place of the plan's,
/// and every other field, the identifier among them, as it was. Every other
/// document of the collection stays as it is.
pub proof fn patch_changes_given_fields(
    collection: Collection,
    id: Seq<char>,
    plan: PlanView,
    patch: PatchPlanView,
)
    requires
        collection.read(id) == Ok::<PlanView, PlanError>(plan),
    ensures
        collection.patch(id, patch).read(id) == Ok::<PlanView, PlanError>(plan.patched(patch)),
        forall|other: Seq<u8>|
            other != hex_bytes(id) ==> (#[trigger] collection.patch(
                id,
                patch,
            ).documents.contains_key(other) <==> collection.documents.contains_key(other)),
        forall|other: Seq<u8>|
            other != hex_bytes(id) && collection.documents.contains_key(other)
                ==> #[trigger] collection.patch(id, patch).documents[other]
                == collection.documents[other],
{
    lemma_keys_differ();
    reveal_strlit("$set");
    let key = hex_bytes(id);
    let filter = filter_fields(key);
    assert(id_field(filter, "_id"@) == Some(key));
    let stored = collection.documents[key];
    let props = patch_fields(patch);
    assert(nested_field(update_fields(patch), "$set"@) == Some(props));
    let after = stored.union_prefer_right(props);
    assert(collection.patch(id, patch).documents == collection.documents.insert(key, after));
    assert(!props.contains_key("_id"@));
    assert(id_field(after, "_id"@) == id_field(stored, "_id"@));
    assert(text_field(after, "adaptation_id"@) == Some(plan.patched(patch).adaptation_id));
    assert(text_field(after, "end"@) == Some(plan.patched(patch).end));
    assert(text_field(after, "name"@) == Some(plan.patched(patch).name));
    assert(text_field(after, "start"@) == Some(plan.patched(patch).start));
}

/// A partial update that holds no field leaves the collection as it is,
/// whatever the identifier.
pub proof fn empty_patch_changes_nothing(
    collection: Collection,
    id: Seq<char>,
    patch: PatchPlanView,
)
    requires
        patch.is_empty(),
    ensures
        collection.patch(id, patch) == collection,
        patch_fields(patch) == Fields::empty(),
{
    reveal_strlit("$set");
    if is_object_id_text(id) {
        let key = hex_bytes(id);
        let filter = filter_fields(key);
        assert(id_field(filter, "_id"@) == Some(key));
        assert(nested_field(update_fields(patch), "$set"@) == Some(Fields::empty()));
        if collection.documents.contains_key(key) {
            let stored = collection.documents[key];
            assert(stored.union_prefer_right(Fields::empty()) =~= stored);
            assert(collection.documents.insert(key, stored) =~= collection.documents);
        }
    }
}

/// After the removal of a plan, a lookup of its identifier returns
/// `NotFound`.
pub proof fn removed_plan_is_not_found(collection: Collection, id: Seq<char>)
    requires
        is_object_id_text(id),
    ensures
        collection.remove(id).read(id) == Err::<PlanView, PlanError>(PlanError::NotFound),
{
    let key = hex_bytes(id);
    assert(id_field(filter_fields(key), "_id"@) == Some(key));
}

/// A lookup, a partial update and a removal by an identifier that is not
/// well formed return `InvalidId` or leave the collection as it is.
pub proof fn invalid_id_is_refused(collection: Collection, id: Seq<char>, patch: PatchPlanView)
    requires
        !is_object_id_text(id),
    ensures
        collection.read(id) == Err::<PlanView, PlanError>(PlanError::InvalidId),
        collection.patch(id, patch) == collection,
        collection.remove(id) == collection,
{
}

/// After the creation of `plans` under the distinct identifiers `ids`, each
/// of them is stored under its identifier, and every other document is one
/// that was stored before.
proof fn lemma_create_all_stores(collection: Collection, plans: Seq<PlanView>, ids: Seq<Seq<u8>>)
    requires
        ids.len() == plans.len(),
        ids.no_duplicates(),
    ensures
        forall|k: int|
            0 <= k < ids.len() ==> {
                let after = collection.create_all(plans, ids);
                &&& after.documents.contains_key(#[trigger] ids[k])
                &&& after.documents[ids[k]] == plan_fields(plans[k]).insert(
                    "_id"@,
                    Element::Id(ids[k]),
                )
            },
        forall|id: Seq<u8>| #[trigger]
            collection.create_all(plans, ids).documents.contains_key(id) ==> ids.contains(id) || (
            collection.documents.contains_key(id) && collection.create_all(
                plans,
                ids,
            ).documents[id] == collection.documents[id]),
    decreases plans.len(),
{
    if plans.len() > 0 {
        let earlier_plans = plans.drop_last();
        let earlier_ids = ids.drop_last();
        let earlier = collection.create_all(earlier_plans, earlier_ids);
        let after = collection.create_all(plans, ids);
        lemma_create_all_stores(collection, earlier_plans, earlier_ids);
        assert forall|k: int| 0 <= k < ids.len() implies after.documents.contains_key(
            #[trigger] ids[k],
        ) && after.documents[ids[k]] == plan_fields(plans[k]).insert(
            "_id"@,
            Element::Id(ids[k]),
        ) by {
            if k < ids.len() - 1 {
                assert(earlier_ids[k] == ids[k]);
                assert(ids[k] != ids.last());
            }
        }
        assert forall|id: Seq<u8>| #[trigger] after.documents.contains_key(id) implies ids.contains(
            id,
        ) || (collection.documents.contains_key(id) && after.documents[id]
            == collection.documents[id]) by {
            if id == ids.last() {
            } else if earlier_ids.contains(id) {
                let k = choose|k: int| 0 <= k < earlier_ids.len() && earlier_ids[k] == id;
                assert(ids[k] == id);
            }
        }
    }
}

/// A listing holds what was created: after the creation of `plans` under the
/// distinct identifiers `ids`, in a collection whose documents all hold
/// plans, a listing of the collection returns at least as many plans as were
/// created, and each of them as its creation returned it.
pub proof fn listing_holds_created(
    collection: Collection,
    plans: Seq<PlanView>,
    ids: Seq<Seq<u8>>,
    found: Seq<Fields>,
)
    requires
        collection.holds_plans(),
        ids.len() == plans.len(),
        ids.no_duplicates(),
        collection.create_all(plans, ids).lists(found),
    ensures
        listed(found) is Ok,
        listed(found).unwrap().len() >= plans.len(),
        forall|k: int|
            0 <= k < plans.len() ==> listed(found).unwrap().contains(
                created(#[trigger] plans[k], ids[k]),
            ),
{
    broadcast use vstd::seq_lib::seq_to_set_is_finite;

    let after = collection.create_all(plans, ids);
    lemma_create_all_stores(collection, plans, ids);
    assert forall|j: int| 0 <= j < found.len() implies decoded(#[trigger] found[j]) is Some by {
        let id = choose|id: Seq<u8>|
            after.documents.contains_key(id) && after.documents[id] == found[j];
        if ids.contains(id) {
            let k = choose|k: int| 0 <= k < ids.len() && ids[k] == id;
            lemma_stored_plan_decodes(plans[k], ids[k]);
        }
    }
    let listing = listed(found).unwrap();
    assert forall|k: int| 0 <= k < plans.len() implies listing.contains(
        created(#[trigger] plans[k], ids[k]),
    ) by {
        lemma_stored_plan_decodes(plans[k], ids[k]);
        assert(after.documents.contains_key(ids[k]));
        let j = choose|j: int| 0 <= j < found.len() && found[j] == after.documents[ids[k]];
        assert(listing[j] == created(plans[k], ids[k]));
    }
    let id_of = |fields: Fields| id_field(fields, "_id"@).unwrap();
    let stored_ids = found.to_set().map(id_of);
    assert(ids.to_set().subset_of(stored_ids)) by {
        assert forall|id: Seq<u8>| ids.to_set().contains(id) implies stored_ids.contains(id) by {
            let k = choose|k: int| 0 <= k < ids.len() && ids[k] == id;
            assert(after.documents.contains_key(ids[k]));
            let fields = after.documents[ids[k]];
            assert(found.to_set().contains(fields));
            assert(id_of(fields) == id);
        }
    }
    vstd::set_lib::lemma_map_size_bound(found.to_set(), stored_ids, id_of);
    vstd::set_lib::lemma_len_subset(ids.to_set(), stored_ids);
    ids.unique_seq_to_set();
    found.lemma_cardinality_of_set();
}

} // verus!
