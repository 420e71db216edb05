//! The Dog resource: model, request/response conversion, partial-update
//! selection, and its persistence gateway. A dog carries an owner reference;
//! the reference is validated as an identifier but deliberately never checked
//! against the Owner collection.

use vstd::prelude::*;
use vstd::string::*;
use crate::errors::AppError;
use crate::oid::{EntityId, hex_of, valid_oid_str, canonical_oid_str, decoded_bytes, fresh_id,
    lemma_encode_decode, lemma_decode_encode};

verus! {

/// A dog as persisted: the identifier is generated once at creation and
/// never changes; the owner reference is stored in decoded form.
#[derive(Debug)]
pub struct Dog {
    pub _id: EntityId,
    pub owner: EntityId,
    pub name: String,
    pub age: Option<u8>,
    pub breed: Option<String>,
}

/// The mathematical value of a persisted dog.
#[verifier::ext_equal]
pub ghost struct DogView {
    pub id: Seq<u8>,
    pub owner: Seq<u8>,
    pub name: Seq<char>,
    pub age: Option<u8>,
    pub breed: Option<Seq<char>>,
}

impl View for Dog {
    type V = DogView;

    open spec fn view(&self) -> DogView {
        DogView {
            id: self._id@,
            owner: self.owner@,
            name: self.name@,
            age: self.age,
            breed: match self.breed {
                Some(b) => Some(b@),
                None => None,
            },
        }
    }
}

impl Clone for Dog {
    fn clone(&self) -> (r: Self)
        ensures
            r@ == self@,
            r.age == self.age,
            r.breed is Some <==> self.breed is Some,
    {
        Dog {
            _id: self._id.clone(),
            owner: self.owner.clone(),
            name: self.name.clone(),
            age: self.age,
            breed: match &self.breed {
                Some(b) => Some(b.clone()),
                None => None,
            },
        }
    }
}

/// A create request: the owner reference and any date-like field arrive as
/// plain strings needing validation.
#[derive(Debug)]
pub struct DogRequest {
    pub owner: String,
    pub name: String,
    pub age: Option<u8>,
    pub breed: Option<String>,
}

/// The response shape: both identifiers flattened to hex strings.
#[derive(Debug)]
pub struct DogResponse {
    pub _id: String,
    pub owner: String,
    pub name: String,
    pub age: Option<u8>,
    pub breed: Option<String>,
}

/// A persisted dog built from a create request: a well-formed fresh
/// identifier, the owner reference decoded, every other field copied
/// verbatim.
pub open spec fn dog_from_request(o: Dog, q: DogRequest) -> bool {
    o._id.wf() && o.owner@ == decoded_bytes(q.owner@) && o.name == q.name && o.age == q.age
        && o.breed == q.breed
}

/// A response projected from a persisted dog: both identifiers rendered as
/// lowercase hex, every other field copied verbatim.
pub open spec fn dog_response_of(o: Dog, r: DogResponse) -> bool {
    r._id@ == hex_of(o._id@) && r.owner@ == hex_of(o.owner@) && r.name == o.name && r.age == o.age
        && r.breed == o.breed
}

impl DogRequest {
    /// Builds the persisted form from a create request: generates a fresh
    /// identifier, decodes the owner reference — a malformed one fails the
    /// whole conversion — and copies every other field verbatim.
    pub fn to_entity(self) -> (r: Result<Dog, AppError>)
        ensures
            valid_oid_str(self.owner@) ==> (r matches Ok(o) && dog_from_request(o, self)),
            !valid_oid_str(self.owner@) ==> (r matches Err(AppError::DatabaseError(m))
                && m@ == "Invalid owner ID"@),
    {
        let owner = match EntityId::decode(self.owner.as_str()) {
            Ok(o) => o,
            Err(_) => {
                return Err(AppError::DatabaseError(String::from_str("Invalid owner ID")));
            },
        };
        Ok(Dog { _id: fresh_id(), owner, name: self.name, age: self.age, breed: self.breed })
    }
}

impl Dog {
    /// Projects the persisted form to the response shape: both identifiers
    /// rendered as lowercase hex, every other field copied verbatim. Total,
    /// no failure mode.
    pub fn to_response(self) -> (r: DogResponse)
        ensures
            dog_response_of(self, r),
    {
        DogResponse {
            _id: self._id.to_hex(),
            owner: self.owner.to_hex(),
            name: self.name,
            age: self.age,
            breed: self.breed,
        }
    }
}

/// An update request: every field optional; absence means "leave unchanged".
#[derive(Debug)]
pub struct DogUpdateRequest {
    pub owner: Option<String>,
    pub name: Option<String>,
    pub age: Option<u8>,
    pub breed: Option<String>,
}

/// The validated field-level changes an update applies as a partial merge:
/// a supplied owner reference is kept in decoded form.
#[derive(Debug)]
pub struct DogFieldSet {
    pub owner: Option<EntityId>,
    pub name: Option<String>,
    pub age: Option<u8>,
    pub breed: Option<String>,
}

/// Whether an update request supplies at least one field.
pub open spec fn dog_has_update_field(u: DogUpdateRequest) -> bool {
    u.owner is Some || u.name is Some || u.age is Some || u.breed is Some
}

/// Whether the supplied owner reference, if any, is a well-formed identifier.
pub open spec fn dog_update_owner_ok(u: DogUpdateRequest) -> bool {
    match u.owner {
        Some(s) => valid_oid_str(s@),
        None => true,
    }
}

/// Whether the field selector accepts the update request.
pub open spec fn dog_build_ok(u: DogUpdateRequest) -> bool {
    dog_update_owner_ok(u) && dog_has_update_field(u)
}

/// Which error the field selector reports for a rejected update request:
/// a malformed owner reference before the empty-payload check.
pub open spec fn dog_build_err(u: DogUpdateRequest, e: AppError) -> bool {
    if !dog_update_owner_ok(u) {
        e matches AppError::DatabaseError(m) && m@ == "Update Failed: invalid owner ID"@
    } else {
        e matches AppError::ParseError(m) && m@ == "No fields provided to update"@
    }
}

/// The merge an update request denotes, applied to a stored dog: supplied
/// fields replace the stored ones, absent fields and the identifier are left
/// untouched. An optional field, once set, cannot be unset by an update.
pub open spec fn dog_merged(v: DogView, u: DogUpdateRequest) -> DogView {
    DogView {
        id: v.id,
        owner: match u.owner { Some(s) => decoded_bytes(s@), None => v.owner },
        name: match u.name { Some(n) => n@, None => v.name },
        age: match u.age { Some(a) => Some(a), None => v.age },
        breed: match u.breed { Some(b) => Some(b@), None => v.breed },
    }
}

impl DogUpdateRequest {
    /// Selects and validates the fields an update supplies: a supplied owner
    /// reference must decode, and at least one field must be present.
    pub fn build_update(self) -> (r: Result<DogFieldSet, AppError>)
        ensures
            dog_build_ok(self) ==> (r matches Ok(f) && f.name == self.name && f.age == self.age
                && f.breed == self.breed && (match self.owner {
                Some(s) => f.owner matches Some(e) && e@ == decoded_bytes(s@),
                None => f.owner is None,
            })),
            !dog_build_ok(self) ==> (r matches Err(e) && dog_build_err(self, e)),
    {
        let owner: Option<EntityId> = match &self.owner {
            Some(s) => match EntityId::decode(s.as_str()) {
                Ok(o) => Some(o),
                Err(_) => {
                    return Err(AppError::DatabaseError(
                        String::from_str("Update Failed: invalid owner ID"),
                    ));
                },
            },
            None => None,
        };
        if owner.is_none() && self.name.is_none() && self.age.is_none() && self.breed.is_none() {
            Err(AppError::ParseError(String::from_str("No fields provided to update")))
        } else {
            Ok(DogFieldSet { owner, name: self.name, age: self.age, breed: self.breed })
        }
    }
}

impl Dog {
    /// Applies a validated field set as a partial merge: supplied fields
    /// replace the stored ones; the identifier and absent fields are left
    /// untouched.
    pub fn apply_update(&mut self, f: DogFieldSet)
        ensures
            final(self)._id == old(self)._id,
            final(self).owner == (match f.owner { Some(o) => o, None => old(self).owner }),
            final(self).name == (match f.name { Some(n) => n, None => old(self).name }),
            final(self).age == (match f.age { Some(a) => Some(a), None => old(self).age }),
            final(self).breed == (match f.breed { Some(b) => Some(b), None => old(self).breed }),
    {
        if let Some(o) = f.owner {
            self.owner = o;
        }
        if let Some(n) = f.name {
            self.name = n;
        }
        if let Some(a) = f.age {
            self.age = Some(a);
        }
        if let Some(b) = f.breed {
            self.breed = Some(b);
        }
    }
}

/// Creating then projecting round-trips every client field verbatim but the
/// owner reference, which is normalized to canonical hex: it denotes the same
/// identifier, and is returned character for character when it was canonical
/// already. The generated identifier is present as canonical hex that decodes
/// back to the entity's own identifier.
pub proof fn lemma_dog_create_round_trip(q: DogRequest, o: Dog, resp: DogResponse)
    requires
        valid_oid_str(q.owner@),
        dog_from_request(o, q),
        dog_response_of(o, resp),
    ensures
        resp.name == q.name,
        resp.age == q.age,
        resp.breed == q.breed,
        decoded_bytes(resp.owner@) == decoded_bytes(q.owner@),
        canonical_oid_str(q.owner@) ==> resp.owner@ == q.owner@,
        canonical_oid_str(resp._id@),
        decoded_bytes(resp._id@) == o._id@,
{
    lemma_encode_decode(o._id@);
    lemma_encode_decode(o.owner@);
    if canonical_oid_str(q.owner@) {
        lemma_decode_encode(q.owner@);
    }
}

/// Well-formed gateway contents: every identifier holds 12 bytes and no two
/// documents share one.
pub open spec fn dog_docs_wf(s: Seq<DogView>) -> bool {
    (forall|i: int| 0 <= i < s.len() ==> (#[trigger] s[i]).id.len() == 12)
        && (forall|i: int, j: int| 0 <= i < j < s.len() ==> (#[trigger] s[i]).id != (#[trigger] s[j]).id)
}

/// What a delete leaves behind: a malformed identifier is rejected before
/// any access, a missing document reports `NotFound`, and a match removes
/// exactly that document and returns the canonical hex identifier.
pub open spec fn dog_delete_post(
    pre: Seq<DogView>,
    post: Seq<DogView>,
    id: Seq<char>,
    r: Result<String, AppError>,
) -> bool {
    if !valid_oid_str(id) {
        r == Err::<String, AppError>(AppError::InvalidId) && post == pre
    } else if exists|i: int| 0 <= i < pre.len() && (#[trigger] pre[i]).id == decoded_bytes(id) {
        (r matches Ok(h) && h@ == hex_of(decoded_bytes(id))) && (exists|i: int|
            0 <= i < pre.len() && (#[trigger] pre[i]).id == decoded_bytes(id) && post == pre.remove(
                i,
            ))
    } else {
        r == Err::<String, AppError>(AppError::NotFound) && post == pre
    }
}

/// The Dog persistence gateway: one backing collection of dog documents,
/// addressed by identifier.
pub struct DogStore {
    docs: Vec<Dog>,
}

impl View for DogStore {
    type V = Seq<DogView>;

    closed spec fn view(&self) -> Seq<DogView> {
        Seq::new(self.docs@.len(), |i: int| self.docs@[i]@)
    }
}

impl DogStore {
    pub open spec fn wf(&self) -> bool {
        dog_docs_wf(self@)
    }

    /// An empty collection.
    pub fn new() -> (r: Self)
        ensures
            r.wf(),
            r@ == Seq::<DogView>::empty(),
    {
        let s = DogStore { docs: Vec::new() };
        proof {
            assert(s@ =~= Seq::<DogView>::empty());
        }
        s
    }

    /// The index of the document with the given identifier, if any.
    fn find_index(&self, id: &EntityId) -> (r: Option<usize>)
        ensures
            r matches Some(i) ==> i < self@.len() && self@[i as int].id == id@,
            r is None ==> forall|i: int| 0 <= i < self@.len() ==> (#[trigger] self@[i]).id != id@,
    {
        let n = self.docs.len();
        let mut i: usize = 0;
        while i < n
            invariant
                i <= n,
                n == self@.len(),
                n == self.docs@.len(),
                forall|j: int| 0 <= j < i ==> (#[trigger] self@[j]).id != id@,
            decreases n - i,
        {
            if self.docs[i]._id.matches_id(id) {
                return Some(i);
            }
            i += 1;
        }
        None
    }

    /// Inserts the entity as given; the identifier was already assigned by
    /// the conversion layer. The store rejects a duplicate identifier, as a
    /// backing collection keyed by it would; the entity is handed back
    /// unchanged on success.
    pub fn create(&mut self, dog: Dog) -> (r: Result<Dog, AppError>)
        requires
            old(self).wf(),
            dog._id.wf(),
        ensures
            final(self).wf(),
            (exists|i: int| 0 <= i < old(self)@.len() && (#[trigger] old(self)@[i]).id
                == dog._id@) ==> (r matches Err(AppError::DatabaseError(m))
                && m@ == "duplicate identifier"@ && final(self)@ == old(self)@),
            !(exists|i: int| 0 <= i < old(self)@.len() && (#[trigger] old(self)@[i]).id
                == dog._id@) ==> (r matches Ok(o) && o == dog && final(self)@ == old(self)@.push(
                dog@,
            )),
    {
        match self.find_index(&dog._id) {
            Some(_) => Err(AppError::DatabaseError(String::from_str("duplicate identifier"))),
            None => {
                let ghost pre = self@;
                self.docs.push(dog.clone());
                proof {
                    assert(self@ =~= pre.push(dog@));
                }
                Ok(dog)
            },
        }
    }

    /// Returns every stored document. The order is the insertion order here,
    /// though callers are promised no order.
    pub fn read_all(&self) -> (r: Vec<Dog>)
        ensures
            r@.len() == self@.len(),
            forall|i: int| 0 <= i < r@.len() ==> (#[trigger] r@[i])@ == self@[i],
    {
        let n = self.docs.len();
        let mut out: Vec<Dog> = Vec::new();
        let mut i: usize = 0;
        while i < n
            invariant
                i <= n,
                n == self@.len(),
                n == self.docs@.len(),
                out@.len() == i,
                forall|j: int| 0 <= j < i ==> (#[trigger] out@[j])@ == self@[j],
            decreases n - i,
        {
            out.push(self.docs[i].clone());
            i += 1;
        }
        out
    }

    /// Looks up one document by its identifier string. A malformed string is
    /// rejected as `InvalidId` before any access; a well-formed one either
    /// finds its document or reports `NotFound`.
    pub fn read_one(&self, id: &str) -> (r: Result<Dog, AppError>)
        requires
            self.wf(),
        ensures
            !valid_oid_str(id@) ==> r == Err::<Dog, AppError>(AppError::InvalidId),
            valid_oid_str(id@) ==> (match r {
                Ok(o) => o@.id == decoded_bytes(id@) && exists|i: int|
                    0 <= i < self@.len() && #[trigger] self@[i] == o@,
                Err(e) => e == AppError::NotFound && forall|i: int|
                    0 <= i < self@.len() ==> (#[trigger] self@[i]).id != decoded_bytes(id@),
            }),
    {
        let oid = match EntityId::decode(id) {
            Ok(o) => o,
            Err(e) => { return Err(e); },
        };
        match self.find_index(&oid) {
            Some(i) => Ok(self.docs[i].clone()),
            None => Err(AppError::NotFound),
        }
    }

    /// Applies an update as a partial merge onto the document with the given
    /// identifier. The identifier is decoded first, then the field set is
    /// validated; a store outcome that matched no document is still reported
    /// as success carrying the canonical hex identifier — this layer performs
    /// no existence check.
    pub fn update(&mut self, id: &str, u: DogUpdateRequest) -> (r: Result<String, AppError>)
        requires
            old(self).wf(),
        ensures
            final(self).wf(),
            !valid_oid_str(id@) ==> r == Err::<String, AppError>(AppError::InvalidId)
                && final(self)@ == old(self)@,
            valid_oid_str(id@) && !dog_build_ok(u) ==> (r matches Err(e) && dog_build_err(u, e)
                && final(self)@ == old(self)@),
            valid_oid_str(id@) && dog_build_ok(u) ==> (r matches Ok(h)
                && h@ == hex_of(decoded_bytes(id@)) && final(self)@.len() == old(self)@.len()
                && (forall|i: int| 0 <= i < old(self)@.len() && (#[trigger] old(self)@[i]).id
                    != decoded_bytes(id@) ==> final(self)@[i] == old(self)@[i])
                && (forall|i: int| 0 <= i < old(self)@.len() && (#[trigger] old(self)@[i]).id
                    == decoded_bytes(id@) ==> final(self)@[i] == dog_merged(old(self)@[i], u))),
    {
        let oid = match EntityId::decode(id) {
            Ok(o) => o,
            Err(e) => { return Err(e); },
        };
        let ghost u0 = u;
        let fs = match u.build_update() {
            Ok(f) => f,
            Err(e) => { return Err(e); },
        };
        let ghost pre = self@;
        match self.find_index(&oid) {
            Some(i) => {
                let mut doc = self.docs.remove(i);
                doc.apply_update(fs);
                self.docs.insert(i, doc);
                proof {
                    assert(self@ =~= pre.update(i as int, dog_merged(pre[i as int], u0)));
                    assert forall|k: int|
                        0 <= k < pre.len() && (#[trigger] pre[k]).id == decoded_bytes(id@)
                        implies self@[k] == dog_merged(pre[k], u0) by {
                        if k != i {
                            assert(pre[k].id != pre[i as int].id);
                        }
                    }
                }
            },
            None => {},
        }
        Ok(oid.to_hex())
    }

    /// Removes the document with the given identifier. A malformed string is
    /// rejected before any access; a missing document reports `NotFound`; a
    /// match removes exactly that document and returns its hex identifier.
    pub fn delete(&mut self, id: &str) -> (r: Result<String, AppError>)
        requires
            old(self).wf(),
        ensures
            final(self).wf(),
            dog_delete_post(old(self)@, final(self)@, id@, r),
    {
        let oid = match EntityId::decode(id) {
            Ok(o) => o,
            Err(e) => { return Err(e); },
        };
        let ghost pre = self@;
        match self.find_index(&oid) {
            Some(i) => {
                self.docs.remove(i);
                proof {
                    assert(self@ =~= pre.remove(i as int));
                    assert forall|a: int, b: int| 0 <= a < b < self@.len() implies (
                    #[trigger] self@[a]).id != (#[trigger] self@[b]).id by {
                        if b < i as int {
                            assert(self@[a] == pre[a] && self@[b] == pre[b]);
                        } else if a < i as int {
                            assert(self@[a] == pre[a] && self@[b] == pre[b + 1]);
                        } else {
                            assert(self@[a] == pre[a + 1] && self@[b] == pre[b + 1]);
                        }
                    }
                }
                Ok(oid.to_hex())
            },
            None => Err(AppError::NotFound),
        }
    }
}

/// Deleting twice by the same identifier: when the first call succeeded, the
/// second finds nothing, reports `NotFound`, and leaves the collection as the
/// first call left it.
pub proof fn lemma_dog_delete_idempotent(
    s0: Seq<DogView>,
    s1: Seq<DogView>,
    s2: Seq<DogView>,
    id: Seq<char>,
    r1: Result<String, AppError>,
    r2: Result<String, AppError>,
)
    requires
        dog_docs_wf(s0),
        dog_delete_post(s0, s1, id, r1),
        dog_delete_post(s1, s2, id, r2),
        r1 is Ok,
    ensures
        r2 == Err::<String, AppError>(AppError::NotFound),
        s2 == s1,
{
    let d = decoded_bytes(id);
    let i = choose|i: int| 0 <= i < s0.len() && (#[trigger] s0[i]).id == d && s1 == s0.remove(i);
    assert forall|j: int| 0 <= j < s1.len() implies (#[trigger] s1[j]).id != d by {
        if j < i {
            assert(s1[j] == s0[j]);
        } else {
            assert(s1[j] == s0[j + 1]);
        }
    }
}

} // verus!
