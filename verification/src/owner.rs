//! The Owner resource: model, request/response conversion, partial-update
//! selection, and its persistence gateway.

use vstd::prelude::*;
use vstd::string::*;
use crate::errors::AppError;
use crate::oid::{EntityId, hex_of, valid_oid_str, canonical_oid_str, decoded_bytes, fresh_id, lemma_encode_decode};

verus! {

/// An owner as persisted: the identifier is generated once at creation and
/// never changes.
#[derive(Debug)]
pub struct Owner {
    pub _id: EntityId,
    pub name: String,
    pub email: String,
    pub phone: String,
    pub address: String,
}

/// The mathematical value of a persisted owner.
#[verifier::ext_equal]
pub ghost struct OwnerView {
    pub id: Seq<u8>,
    pub name: Seq<char>,
    pub email: Seq<char>,
    pub phone: Seq<char>,
    pub address: Seq<char>,
}

impl View for Owner {
    type V = OwnerView;

    open spec fn view(&self) -> OwnerView {
        OwnerView {
            id: self._id@,
            name: self.name@,
            email: self.email@,
            phone: self.phone@,
            address: self.address@,
        }
    }
}

impl Clone for Owner {
    fn clone(&self) -> (r: Self)
        ensures
            r@ == self@,
    {
        Owner {
            _id: self._id.clone(),
            name: self.name.clone(),
            email: self.email.clone(),
            phone: self.phone.clone(),
            address: self.address.clone(),
        }
    }
}

/// A create request: client-supplied fields only, no identifier.
#[derive(Debug)]
pub struct OwnerRequest {
    pub name: String,
    pub email: String,
    pub phone: String,
    pub address: String,
}

/// The response shape: the identifier flattened to its hex string.
#[derive(Debug)]
pub struct OwnerResponse {
    pub _id: String,
    pub name: String,
    pub email: String,
    pub phone: String,
    pub address: String,
}

/// A persisted owner built from a create request: a well-formed fresh
/// identifier, every client field copied verbatim.
pub open spec fn owner_from_request(o: Owner, q: OwnerRequest) -> bool {
    o._id.wf() && o.name == q.name && o.email == q.email && o.phone == q.phone && o.address
        == q.address
}

/// A response projected from a persisted owner: the identifier rendered as
/// lowercase hex, every other field copied verbatim.
pub open spec fn owner_response_of(o: Owner, r: OwnerResponse) -> bool {
    r._id@ == hex_of(o._id@) && r.name == o.name && r.email == o.email && r.phone == o.phone
        && r.address == o.address
}

impl OwnerRequest {
    /// Builds the persisted form from a create request: generates a fresh
    /// identifier and copies every field verbatim. An owner request has no
    /// field that can fail validation, so the conversion always succeeds.
    pub fn to_entity(self) -> (r: Result<Owner, AppError>)
        ensures
            r matches Ok(o) && owner_from_request(o, self),
    {
        Ok(Owner {
            _id: fresh_id(),
            name: self.name,
            email: self.email,
            phone: self.phone,
            address: self.address,
        })
    }
}

impl Owner {
    /// Projects the persisted form to the response shape: the identifier is
    /// rendered as lowercase hex, every other field copied verbatim. Total,
    /// no failure mode.
    pub fn to_response(self) -> (r: OwnerResponse)
        ensures
            owner_response_of(self, r),
    {
        OwnerResponse {
            _id: self._id.to_hex(),
            name: self.name,
            email: self.email,
            phone: self.phone,
            address: self.address,
        }
    }
}

/// An update request: every field optional; absence means "leave unchanged".
#[derive(Debug)]
pub struct OwnerUpdateRequest {
    pub name: Option<String>,
    pub email: Option<String>,
    pub phone: Option<String>,
    pub address: Option<String>,
}

/// The validated field-level changes an update applies as a partial merge.
#[derive(Debug)]
pub struct OwnerFieldSet {
    pub name: Option<String>,
    pub email: Option<String>,
    pub phone: Option<String>,
    pub address: Option<String>,
}

/// Whether an update request supplies at least one field.
pub open spec fn owner_has_update_field(u: OwnerUpdateRequest) -> bool {
    u.name is Some || u.email is Some || u.phone is Some || u.address is Some
}

/// The merge an update request denotes, applied to a stored owner: supplied
/// fields replace the stored ones, absent fields and the identifier are left
/// untouched.
pub open spec fn owner_merged(v: OwnerView, u: OwnerUpdateRequest) -> OwnerView {
    OwnerView {
        id: v.id,
        name: match u.name { Some(n) => n@, None => v.name },
        email: match u.email { Some(e) => e@, None => v.email },
        phone: match u.phone { Some(p) => p@, None => v.phone },
        address: match u.address { Some(a) => a@, None => v.address },
    }
}

impl OwnerUpdateRequest {
    /// Selects the fields an update supplies. No owner field needs further
    /// validation, so this fails only when the request supplies no field at
    /// all.
    pub fn build_update(self) -> (r: Result<OwnerFieldSet, AppError>)
        ensures
            owner_has_update_field(self) ==> (r matches Ok(f) && f.name == self.name
                && f.email == self.email && f.phone == self.phone && f.address == self.address),
            !owner_has_update_field(self) ==> (r matches Err(AppError::ParseError(m))
                && m@ == "No fields provided to update"@),
    {
        if self.name.is_none() && self.email.is_none() && self.phone.is_none()
            && self.address.is_none() {
            Err(AppError::ParseError(String::from_str("No fields provided to update")))
        } else {
            Ok(OwnerFieldSet {
                name: self.name,
                email: self.email,
                phone: self.phone,
                address: self.address,
            })
        }
    }
}

impl Owner {
    /// Applies a validated field set as a partial merge: supplied fields
    /// replace the stored ones; the identifier and absent fields are left
    /// untouched.
    pub fn apply_update(&mut self, f: OwnerFieldSet)
        ensures
            final(self)._id == old(self)._id,
            final(self).name == (match f.name { Some(n) => n, None => old(self).name }),
            final(self).email == (match f.email { Some(e) => e, None => old(self).email }),
            final(self).phone == (match f.phone { Some(p) => p, None => old(self).phone }),
            final(self).address == (match f.address { Some(a) => a, None => old(self).address }),
    {
        if let Some(n) = f.name {
            self.name = n;
        }
        if let Some(e) = f.email {
            self.email = e;
        }
        if let Some(p) = f.phone {
            self.phone = p;
        }
        if let Some(a) = f.address {
            self.address = a;
        }
    }
}

/// Creating then projecting round-trips every client field verbatim; the
/// generated identifier is present in the response as well-formed canonical
/// hex that decodes back to the entity's own identifier.
pub proof fn lemma_owner_create_round_trip(q: OwnerRequest, o: Owner, resp: OwnerResponse)
    requires
        owner_from_request(o, q),
        owner_response_of(o, resp),
    ensures
        resp.name == q.name,
        resp.email == q.email,
        resp.phone == q.phone,
        resp.address == q.address,
        canonical_oid_str(resp._id@),
        decoded_bytes(resp._id@) == o._id@,
{
    lemma_encode_decode(o._id@);
}

/// Well-formed gateway contents: every identifier holds 12 bytes and no two
/// documents share one.
pub open spec fn owner_docs_wf(s: Seq<OwnerView>) -> bool {
    (forall|i: int| 0 <= i < s.len() ==> (#[trigger] s[i]).id.len() == 12)
        && (forall|i: int, j: int| 0 <= i < j < s.len() ==> (#[trigger] s[i]).id != (#[trigger] s[j]).id)
}

/// What a delete leaves behind: a malformed identifier is rejected before
/// any access, a missing document reports `NotFound`, and a match removes
/// exactly that document and returns the canonical hex identifier.
pub open spec fn owner_delete_post(
    pre: Seq<OwnerView>,
    post: Seq<OwnerView>,
    id: Seq<char>,
    r: Result<String, AppError>,
) -> bool {
    if !valid_oid_str(id) {
        r == Err::<String, AppError>(AppError::InvalidId) && post == pre
    } else if exists|i: int| 0 <= i < pre.len() && (#[trigger] pre[i]).id == decoded_bytes(id) {
        (r matches Ok(h) && h@ == hex_of(decoded_bytes(id))) && (exists|i: int|
            0 <= i < pre.len() && (#[trigger] pre[i]).id == decoded_bytes(id) && post == pre.remove(
                i,
            ))
    } else {
        r == Err::<String, AppError>(AppError::NotFound) && post == pre
    }
}

/// The Owner persistence gateway: one backing collection of owner documents,
/// addressed by identifier.
pub struct OwnerStore {
    docs: Vec<Owner>,
}

impl View for OwnerStore {
    type V = Seq<OwnerView>;

    closed spec fn view(&self) -> Seq<OwnerView> {
        Seq::new(self.docs@.len(), |i: int| self.docs@[i]@)
    }
}

impl OwnerStore {
    pub open spec fn wf(&self) -> bool {
        owner_docs_wf(self@)
    }

    /// An empty collection.
    pub fn new() -> (r: Self)
        ensures
            r.wf(),
            r@ == Seq::<OwnerView>::empty(),
    {
        let s = OwnerStore { docs: Vec::new() };
        proof {
            assert(s@ =~= Seq::<OwnerView>::empty());
        }
        s
    }

    /// The index of the document with the given identifier, if any.
    fn find_index(&self, id: &EntityId) -> (r: Option<usize>)
        ensures
            r matches Some(i) ==> i < self@.len() && self@[i as int].id == id@,
            r is None ==> forall|i: int| 0 <= i < self@.len() ==> (#[trigger] self@[i]).id != id@,
    {
        let n = self.docs.len();
        let mut i: usize = 0;
        while i < n
            invariant
                i <= n,
                n == self@.len(),
                n == self.docs@.len(),
                forall|j: int| 0 <= j < i ==> (#[trigger] self@[j]).id != id@,
            decreases n - i,
        {
            if self.docs[i]._id.matches_id(id) {
                return Some(i);
            }
            i += 1;
        }
        None
    }

    /// Inserts the entity as given; the identifier was already assigned by
    /// the conversion layer. The store rejects a duplicate identifier, as a
    /// backing collection keyed by it would; the entity is handed back
    /// unchanged on success.
    pub fn create(&mut self, owner: Owner) -> (r: Result<Owner, AppError>)
        requires
            old(self).wf(),
            owner._id.wf(),
        ensures
            final(self).wf(),
            (exists|i: int| 0 <= i < old(self)@.len() && (#[trigger] old(self)@[i]).id
                == owner._id@) ==> (r matches Err(AppError::DatabaseError(m))
                && m@ == "duplicate identifier"@ && final(self)@ == old(self)@),
            !(exists|i: int| 0 <= i < old(self)@.len() && (#[trigger] old(self)@[i]).id
                == owner._id@) ==> (r matches Ok(o) && o == owner && final(self)@ == old(
                self,
            )@.push(owner@)),
    {
        match self.find_index(&owner._id) {
            Some(_) => Err(AppError::DatabaseError(String::from_str("duplicate identifier"))),
            None => {
                let ghost pre = self@;
                self.docs.push(owner.clone());
                proof {
                    assert(self@ =~= pre.push(owner@));
                }
                Ok(owner)
            },
        }
    }

    /// Returns every stored document. The order is the insertion order here,
    /// though callers are promised no order.
    pub fn read_all(&self) -> (r: Vec<Owner>)
        ensures
            r@.len() == self@.len(),
            forall|i: int| 0 <= i < r@.len() ==> (#[trigger] r@[i])@ == self@[i],
    {
        let n = self.docs.len();
        let mut out: Vec<Owner> = Vec::new();
        let mut i: usize = 0;
        while i < n
            invariant
                i <= n,
                n == self@.len(),
                n == self.docs@.len(),
                out@.len() == i,
                forall|j: int| 0 <= j < i ==> (#[trigger] out@[j])@ == self@[j],
            decreases n - i,
        {
            out.push(self.docs[i].clone());
            i += 1;
        }
        out
    }

    /// Looks up one document by its identifier string. A malformed string is
    /// rejected as `InvalidId` before any access; a well-formed one either
    /// finds its document or reports `NotFound`.
    pub fn read_one(&self, id: &str) -> (r: Result<Owner, AppError>)
        requires
            self.wf(),
        ensures
            !valid_oid_str(id@) ==> r == Err::<Owner, AppError>(AppError::InvalidId),
            valid_oid_str(id@) ==> (match r {
                Ok(o) => o@.id == decoded_bytes(id@) && exists|i: int|
                    0 <= i < self@.len() && #[trigger] self@[i] == o@,
                Err(e) => e == AppError::NotFound && forall|i: int|
                    0 <= i < self@.len() ==> (#[trigger] self@[i]).id != decoded_bytes(id@),
            }),
    {
        let oid = match EntityId::decode(id) {
            Ok(o) => o,
            Err(e) => { return Err(e); },
        };
        match self.find_index(&oid) {
            Some(i) => Ok(self.docs[i].clone()),
            None => Err(AppError::NotFound),
        }
    }

    /// Applies an update as a partial merge onto the document with the given
    /// identifier. The identifier is decoded first, then the field set is
    /// validated; a store outcome that matched no document is still reported
    /// as success carrying the canonical hex identifier — this layer performs
    /// no existence check.
    pub fn update(&mut self, id: &str, u: OwnerUpdateRequest) -> (r: Result<String, AppError>)
        requires
            old(self).wf(),
        ensures
            final(self).wf(),
            !valid_oid_str(id@) ==> r == Err::<String, AppError>(AppError::InvalidId)
                && final(self)@ == old(self)@,
            valid_oid_str(id@) && !owner_has_update_field(u) ==> (r matches Err(
                AppError::ParseError(m),
            ) && m@ == "No fields provided to update"@ && final(self)@ == old(self)@),
            valid_oid_str(id@) && owner_has_update_field(u) ==> (r matches Ok(h)
                && h@ == hex_of(decoded_bytes(id@)) && final(self)@.len() == old(self)@.len()
                && (forall|i: int| 0 <= i < old(self)@.len() && (#[trigger] old(self)@[i]).id
                    != decoded_bytes(id@) ==> final(self)@[i] == old(self)@[i])
                && (forall|i: int| 0 <= i < old(self)@.len() && (#[trigger] old(self)@[i]).id
                    == decoded_bytes(id@) ==> final(self)@[i] == owner_merged(old(self)@[i], u))),
    {
        let oid = match EntityId::decode(id) {
            Ok(o) => o,
            Err(e) => { return Err(e); },
        };
        let ghost u0 = u;
        let fs = match u.build_update() {
            Ok(f) => f,
            Err(e) => { return Err(e); },
        };
        let ghost pre = self@;
        match self.find_index(&oid) {
            Some(i) => {
                let mut doc = self.docs.remove(i);
                doc.apply_update(fs);
                self.docs.insert(i, doc);
                proof {
                    assert(self@ =~= pre.update(i as int, owner_merged(pre[i as int], u0)));
                    assert forall|k: int|
                        0 <= k < pre.len() && (#[trigger] pre[k]).id == decoded_bytes(id@)
                        implies self@[k] == owner_merged(pre[k], u0) by {
                        if k != i {
                            assert(pre[k].id != pre[i as int].id);
                        }
                    }
                }
            },
            None => {},
        }
        Ok(oid.to_hex())
    }

    /// Removes the document with the given identifier. A malformed string is
    /// rejected before any access; a missing document reports `NotFound`; a
    /// match removes exactly that document and returns its hex identifier.
    pub fn delete(&mut self, id: &str) -> (r: Result<String, AppError>)
        requires
            old(self).wf(),
        ensures
            final(self).wf(),
            owner_delete_post(old(self)@, final(self)@, id@, r),
    {
        let oid = match EntityId::decode(id) {
            Ok(o) => o,
            Err(e) => { return Err(e); },
        };
        let ghost pre = self@;
        match self.find_index(&oid) {
            Some(i) => {
                self.docs.remove(i);
                proof {
                    assert(self@ =~= pre.remove(i as int));
                    assert forall|a: int, b: int| 0 <= a < b < self@.len() implies (
                    #[trigger] self@[a]).id != (#[trigger] self@[b]).id by {
                        if b < i as int {
                            assert(self@[a] == pre[a] && self@[b] == pre[b]);
                        } else if a < i as int {
                            assert(self@[a] == pre[a] && self@[b] == pre[b + 1]);
                        } else {
                            assert(self@[a] == pre[a + 1] && self@[b] == pre[b + 1]);
                        }
                    }
                }
                Ok(oid.to_hex())
            },
            None => Err(AppError::NotFound),
        }
    }
}

/// Deleting twice by the same identifier: when the first call succeeded, the
/// second finds nothing, reports `NotFound`, and leaves the collection as the
/// first call left it.
pub proof fn lemma_owner_delete_idempotent(
    s0: Seq<OwnerView>,
    s1: Seq<OwnerView>,
    s2: Seq<OwnerView>,
    id: Seq<char>,
    r1: Result<String, AppError>,
    r2: Result<String, AppError>,
)
    requires
        owner_docs_wf(s0),
        owner_delete_post(s0, s1, id, r1),
        owner_delete_post(s1, s2, id, r2),
        r1 is Ok,
    ensures
        r2 == Err::<String, AppError>(AppError::NotFound),
        s2 == s1,
{
    let d = decoded_bytes(id);
    let i = choose|i: int| 0 <= i < s0.len() && (#[trigger] s0[i]).id == d && s1 == s0.remove(i);
    assert forall|j: int| 0 <= j < s1.len() implies (#[trigger] s1[j]).id != d by {
        if j < i {
            assert(s1[j] == s0[j]);
        } else {
            assert(s1[j] == s0[j + 1]);
        }
    }
}

} // verus!
