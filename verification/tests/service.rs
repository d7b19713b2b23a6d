use bson::oid::ObjectId;
use bson::{Bson, Document};
use plan::db::{
    create_plan, delete_plan, get_plan, get_plans, patch_update, plan_document, plan_filter,
    update_plan, BackendFailure,
};
use plan::error::PlanError;
use plan::models::{PatchPlan, Plan};

/// A collection held in memory, which assigns identifiers by counting.
struct MemoryCollection {
    documents: Vec<Document>,
    assigned: u8,
}

impl MemoryCollection {
    fn new() -> Self {
        MemoryCollection { documents: Vec::new(), assigned: 0 }
    }

    fn position(&self, filter: &Document) -> Option<usize> {
        let id = filter.get("_id")?;
        self.documents.iter().position(|document| document.get("_id") == Some(id))
    }

    fn insert_one(&mut self, mut document: Document) -> Result<Option<Bson>, BackendFailure> {
        self.assigned += 1;
        let id = ObjectId::with_bytes([0x5c, 0, 0, 0, 0, 0, 0, 0, 0, 0, 0, self.assigned]);
        document.insert_bson("_id".to_string(), Bson::ObjectId(id.clone()));
        self.documents.push(document);
        Ok(Some(Bson::ObjectId(id)))
    }

    fn find(&self) -> Result<Vec<Result<Document, BackendFailure>>, BackendFailure> {
        Ok(self.documents.iter().cloned().map(Ok).collect())
    }

    fn find_one(&self, filter: &Document) -> Result<Option<Document>, BackendFailure> {
        Ok(self.position(filter).map(|at| self.documents[at].clone()))
    }

    fn find_one_and_update(
        &mut self,
        filter: &Document,
        update: &Document,
    ) -> Result<Option<Document>, BackendFailure> {
        let props = update.get_document("$set").map_err(|_| BackendFailure)?;
        Ok(self.position(filter).map(|at| {
            let before = self.documents[at].clone();
            for (key, value) in props.iter() {
                self.documents[at].insert_bson(key.clone(), value.clone());
            }
            before
        }))
    }

    fn find_one_and_delete(
        &mut self,
        filter: &Document,
    ) -> Result<Option<Document>, BackendFailure> {
        Ok(self.position(filter).map(|at| self.documents.remove(at)))
    }
}

fn create(collection: &mut MemoryCollection, plan: Plan) -> Result<Plan, PlanError> {
    let document = plan_document(&plan);
    create_plan(plan, collection.insert_one(document))
}

fn read(collection: &MemoryCollection, id: &str) -> Result<Plan, PlanError> {
    let filter = plan_filter(id)?;
    get_plan(collection.find_one(&filter))
}

fn patch(collection: &mut MemoryCollection, id: &str, patch: &PatchPlan) -> Result<(), PlanError> {
    let filter = plan_filter(id)?;
    update_plan(collection.find_one_and_update(&filter, &patch_update(patch)))
}

fn remove(collection: &mut MemoryCollection, id: &str) -> Result<(), PlanError> {
    let filter = plan_filter(id)?;
    delete_plan(collection.find_one_and_delete(&filter))
}

fn list(collection: &MemoryCollection) -> Result<Vec<Plan>, PlanError> {
    get_plans(collection.find())
}

fn request(adaptation_id: &str, name: &str, start: &str, end: &str) -> Plan {
    Plan {
        adaptation_id: adaptation_id.to_string(),
        end: end.to_string(),
        id: String::new(),
        name: name.to_string(),
        start: start.to_string(),
    }
}

fn rename(name: &str) -> PatchPlan {
    PatchPlan { adaptation_id: None, end: None, name: Some(name.to_string()), start: None }
}

fn bytes_of(document: &Document) -> Vec<u8> {
    let mut bytes = Vec::new();
    bson::encode_document(&mut bytes, document).unwrap();
    bytes
}

#[test]
fn created_plan_reads_back() {
    let mut collection = MemoryCollection::new();
    let created = create(&mut collection, request("A1", "N", "S", "E")).unwrap();
    assert_eq!(created.id, "5c0000000000000000000001");
    assert_eq!(created.adaptation_id, "A1");
    assert_eq!(created.name, "N");
    assert_eq!(created.start, "S");
    assert_eq!(created.end, "E");
    let read_back = read(&collection, &created.id).unwrap();
    assert_eq!(read_back, created);
    assert_eq!(
        read_back,
        Plan {
            adaptation_id: "A1".to_string(),
            end: "E".to_string(),
            id: "5c0000000000000000000001".to_string(),
            name: "N".to_string(),
            start: "S".to_string(),
        }
    );
}

#[test]
fn reading_twice_gives_the_same() {
    let mut collection = MemoryCollection::new();
    let created = create(&mut collection, request("A1", "N", "S", "E")).unwrap();
    let first = read(&collection, &created.id);
    let second = read(&collection, &created.id);
    assert_eq!(first, second);
    assert_eq!(first, Ok(created));
    let missing = "5c00000000000000000000ff";
    assert_eq!(read(&collection, missing), read(&collection, missing));
}

#[test]
fn patch_of_the_name_changes_the_name_only() {
    let mut collection = MemoryCollection::new();
    let created = create(&mut collection, request("A1", "N", "S", "E")).unwrap();
    let other = create(&mut collection, request("A2", "M", "S2", "E2")).unwrap();
    let change = rename("X");
    assert_eq!(patch(&mut collection, &created.id, &change), Ok(()));
    let after = read(&collection, &created.id).unwrap();
    assert_eq!(after, Plan { name: "X".to_string(), ..created });
    assert_eq!(read(&collection, &other.id), Ok(other));
}

#[test]
fn patch_with_an_empty_string_sets_it() {
    let mut collection = MemoryCollection::new();
    let created = create(&mut collection, request("A1", "N", "S", "E")).unwrap();
    let change =
        PatchPlan { adaptation_id: None, end: Some(String::new()), name: None, start: None };
    assert_eq!(patch(&mut collection, &created.id, &change), Ok(()));
    assert_eq!(read(&collection, &created.id), Ok(Plan { end: String::new(), ..created }));
}

#[test]
fn patch_of_nothing_leaves_the_document_as_it_is() {
    let mut collection = MemoryCollection::new();
    let created = create(&mut collection, request("A1", "N", "S", "E")).unwrap();
    let before = bytes_of(&collection.documents[0]);
    let nothing = PatchPlan { adaptation_id: None, end: None, name: None, start: None };
    assert_eq!(patch(&mut collection, &created.id, &nothing), Ok(()));
    assert_eq!(bytes_of(&collection.documents[0]), before);
    assert_eq!(read(&collection, &created.id), Ok(created));
}

#[test]
fn patch_of_an_unknown_plan_is_not_found() {
    let mut collection = MemoryCollection::new();
    let change = rename("X");
    assert_eq!(
        patch(&mut collection, "5c00000000000000000000ff", &change),
        Err(PlanError::NotFound)
    );
}

#[test]
fn removed_plan_is_not_found() {
    let mut collection = MemoryCollection::new();
    let created = create(&mut collection, request("A1", "N", "S", "E")).unwrap();
    let kept = create(&mut collection, request("A2", "M", "S2", "E2")).unwrap();
    assert_eq!(remove(&mut collection, &created.id), Ok(()));
    let outcome = read(&collection, &created.id);
    assert_eq!(outcome, Err(PlanError::NotFound));
    assert_eq!(outcome.unwrap_err().message(), "Plan not found");
    assert_eq!(read(&collection, &kept.id), Ok(kept));
}

#[test]
fn invalid_id_is_an_error_of_the_service() {
    let mut collection = MemoryCollection::new();
    create(&mut collection, request("A1", "N", "S", "E")).unwrap();
    let change = rename("X");
    for id in ["", "1", "xyz", "5c000000000000000000000", "5c000000000000000000000g"] {
        assert_eq!(read(&collection, id), Err(PlanError::InvalidId));
        assert_eq!(patch(&mut collection, id, &change), Err(PlanError::InvalidId));
        assert_eq!(remove(&mut collection, id), Err(PlanError::InvalidId));
    }
    assert_eq!(collection.documents.len(), 1);
    assert_eq!(collection.documents[0].get("name"), Some(&Bson::String("N".to_string())));
}

#[test]
fn listing_holds_every_created_plan() {
    let mut collection = MemoryCollection::new();
    let mut created = Vec::new();
    for (adaptation_id, name) in [("A1", "first"), ("A2", "second"), ("A1", "first")] {
        created.push(create(&mut collection, request(adaptation_id, name, "S", "E")).unwrap());
    }
    let listing = list(&collection).unwrap();
    assert!(listing.len() >= created.len());
    for plan in &created {
        assert!(listing.contains(plan));
    }
    assert_ne!(created[0].id, created[2].id);
}

#[test]
fn listing_follows_a_removal() {
    let mut collection = MemoryCollection::new();
    let first = create(&mut collection, request("A1", "N", "S", "E")).unwrap();
    let second = create(&mut collection, request("A2", "M", "S2", "E2")).unwrap();
    assert_eq!(remove(&mut collection, &first.id), Ok(()));
    assert_eq!(list(&collection), Ok(vec![second]));
}
