//! The Booking resource: model, request/response conversion, partial-update
//! selection, and its persistence gateway. A booking carries an owner
//! reference and a start time; the start time arrives as an RFC3339 string
//! and is stored as a structured timestamp. A fresh booking is never
//! cancelled.

use vstd::prelude::*;
use vstd::string::*;
use crate::errors::AppError;
use crate::oid::{EntityId, hex_of, valid_oid_str, canonical_oid_str, decoded_bytes, fresh_id,
    lemma_encode_decode, lemma_decode_encode};
use crate::time::{Timestamp, rfc3339_parse, rfc3339_render, parse_start_time, missing_date_message};

verus! {

/// A booking as persisted: the identifier is generated once at creation and
/// never changes; the owner reference and start time are stored decoded.
#[derive(Debug)]
pub struct Booking {
    pub _id: EntityId,
    pub owner: EntityId,
    pub start_time: Timestamp,
    pub duration_minutes: u8,
    pub cancelled: bool,
}

/// The mathematical value of a persisted booking.
#[verifier::ext_equal]
pub ghost struct BookingView {
    pub id: Seq<u8>,
    pub owner: Seq<u8>,
    pub start_millis: i64,
    pub duration_minutes: u8,
    pub cancelled: bool,
}

impl View for Booking {
    type V = BookingView;

    open spec fn view(&self) -> BookingView {
        BookingView {
            id: self._id@,
            owner: self.owner@,
            start_millis: self.start_time.millis,
            duration_minutes: self.duration_minutes,
            cancelled: self.cancelled,
        }
    }
}

impl Clone for Booking {
    fn clone(&self) -> (r: Self)
        ensures
            r@ == self@,
    {
        Booking {
            _id: self._id.clone(),
            owner: self.owner.clone(),
            start_time: self.start_time,
            duration_minutes: self.duration_minutes,
            cancelled: self.cancelled,
        }
    }
}

/// A create request: the owner reference and the start time arrive as plain
/// strings needing validation. A create request cannot set the cancelled
/// flag.
#[derive(Debug)]
pub struct BookingRequest {
    pub owner: String,
    pub start_time: String,
    pub duration_minutes: u8,
}

/// The response shape: identifiers as hex strings, the start time as an
/// RFC3339 string.
#[derive(Debug)]
pub struct BookingResponse {
    pub _id: String,
    pub owner: String,
    pub start_time: String,
    pub duration_minutes: u8,
    pub cancelled: bool,
}

/// A persisted booking built from a create request: a well-formed fresh
/// identifier, the owner reference decoded, the start time parsed, the
/// duration copied verbatim, and the cancelled flag unconditionally false.
pub open spec fn booking_from_request(o: Booking, q: BookingRequest) -> bool {
    o._id.wf() && o.owner@ == decoded_bytes(q.owner@) && rfc3339_parse(q.start_time@) == Ok::<
        i64,
        Seq<char>,
    >(o.start_time.millis) && o.duration_minutes == q.duration_minutes && o.cancelled == false
}

/// A response projected from a persisted booking: identifiers rendered as
/// lowercase hex, the start time rendered as RFC3339, the rest copied
/// verbatim.
pub open spec fn booking_response_of(o: Booking, r: BookingResponse) -> bool {
    r._id@ == hex_of(o._id@) && r.owner@ == hex_of(o.owner@) && r.start_time@ == rfc3339_render(
        o.start_time.millis,
    ) && r.duration_minutes == o.duration_minutes && r.cancelled == o.cancelled
}

/// Which error a create conversion reports: a malformed start time (with the
/// missing-date case told apart) before a malformed owner reference.
pub open spec fn booking_to_entity_err(q: BookingRequest, e: AppError) -> bool {
    match rfc3339_parse(q.start_time@) {
        Err(g) => e matches AppError::ParseError(m) && (missing_date_message(g) ==> m@
            == "Start time must include a date"@) && (!missing_date_message(g) ==> m@
            == "Failed to parse start time: "@ + g),
        Ok(_) => e matches AppError::DatabaseError(m) && m@ == "Invalid owner ID"@,
    }
}

impl BookingRequest {
    /// Builds the persisted form from a create request: generates a fresh
    /// identifier, parses the start time, decodes the owner reference —
    /// either failing the whole conversion — and sets `cancelled` to false
    /// unconditionally.
    pub fn to_entity(self) -> (r: Result<Booking, AppError>)
        ensures
            rfc3339_parse(self.start_time@) is Ok && valid_oid_str(self.owner@) ==> (r matches Ok(
                o,
            ) && booking_from_request(o, self)),
            !(rfc3339_parse(self.start_time@) is Ok && valid_oid_str(self.owner@)) ==> (r matches
                Err(e) && booking_to_entity_err(self, e)),
    {
        let start_time = match parse_start_time(self.start_time.as_str()) {
            Ok(t) => t,
            Err(e) => { return Err(e); },
        };
        let owner = match EntityId::decode(self.owner.as_str()) {
            Ok(o) => o,
            Err(_) => {
                return Err(AppError::DatabaseError(String::from_str("Invalid owner ID")));
            },
        };
        Ok(Booking {
            _id: fresh_id(),
            owner,
            start_time,
            duration_minutes: self.duration_minutes,
            cancelled: false,
        })
    }
}

impl Booking {
    /// Projects the persisted form to the response shape: identifiers
    /// rendered as lowercase hex, the start time as RFC3339, the rest copied
    /// verbatim. Total, no failure mode.
    pub fn to_response(self) -> (r: BookingResponse)
        ensures
            booking_response_of(self, r),
    {
        BookingResponse {
            _id: self._id.to_hex(),
            owner: self.owner.to_hex(),
            start_time: self.start_time.to_rfc3339(),
            duration_minutes: self.duration_minutes,
            cancelled: self.cancelled,
        }
    }
}

/// An update request: every field optional; absence means "leave unchanged".
/// Unlike a create request, an update may set or clear the cancelled flag —
/// it is never implicitly reset.
#[derive(Debug)]
pub struct BookingUpdateRequest {
    pub owner: Option<String>,
    pub start_time: Option<String>,
    pub duration_minutes: Option<u8>,
    pub cancelled: Option<bool>,
}

/// The validated field-level changes an update applies as a partial merge:
/// a supplied owner reference is kept decoded, a supplied start time parsed.
#[derive(Debug)]
pub struct BookingFieldSet {
    pub owner: Option<EntityId>,
    pub start_time: Option<Timestamp>,
    pub duration_minutes: Option<u8>,
    pub cancelled: Option<bool>,
}

/// Whether an update request supplies at least one field.
pub open spec fn booking_has_update_field(u: BookingUpdateRequest) -> bool {
    u.owner is Some || u.start_time is Some || u.duration_minutes is Some || u.cancelled is Some
}

/// Whether the supplied owner reference, if any, is a well-formed identifier.
pub open spec fn booking_update_owner_ok(u: BookingUpdateRequest) -> bool {
    match u.owner {
        Some(s) => valid_oid_str(s@),
        None => true,
    }
}

/// Whether the supplied start time, if any, parses as RFC3339.
pub open spec fn booking_update_start_ok(u: BookingUpdateRequest) -> bool {
    match u.start_time {
        Some(s) => rfc3339_parse(s@) is Ok,
        None => true,
    }
}

/// Whether the field selector accepts the update request.
pub open spec fn booking_build_ok(u: BookingUpdateRequest) -> bool {
    booking_update_owner_ok(u) && booking_update_start_ok(u) && booking_has_update_field(u)
}

/// Which error the field selector reports for a rejected update request: a
/// malformed owner reference first, then a malformed start time (with the
/// missing-date case told apart), then the empty payload.
pub open spec fn booking_build_err(u: BookingUpdateRequest, e: AppError) -> bool {
    if !booking_update_owner_ok(u) {
        e matches AppError::DatabaseError(m) && m@ == "Update Failed: invalid owner ID"@
    } else if !booking_update_start_ok(u) {
        match u.start_time {
            Some(s) => match rfc3339_parse(s@) {
                Err(g) => e matches AppError::ParseError(m) && (missing_date_message(g) ==> m@
                    == "Start time must include a date"@) && (!missing_date_message(g) ==> m@
                    == "Failed to parse start time: "@ + g),
                Ok(_) => false,
            },
            None => false,
        }
    } else {
        e matches AppError::ParseError(m) && m@ == "No fields provided to update"@
    }
}

/// The merge an update request denotes, applied to a stored booking:
/// supplied fields replace the stored ones (the owner decoded, the start
/// time parsed), absent fields and the identifier are left untouched.
pub open spec fn booking_merged(v: BookingView, u: BookingUpdateRequest) -> BookingView {
    BookingView {
        id: v.id,
        owner: match u.owner { Some(s) => decoded_bytes(s@), None => v.owner },
        start_millis: match u.start_time {
            Some(s) => rfc3339_parse(s@)->Ok_0,
            None => v.start_millis,
        },
        duration_minutes: match u.duration_minutes { Some(d) => d, None => v.duration_minutes },
        cancelled: match u.cancelled { Some(c) => c, None => v.cancelled },
    }
}

impl BookingUpdateRequest {
    /// Selects and validates the fields an update supplies: a supplied owner
    /// reference must decode, a supplied start time must parse, and at least
    /// one field must be present.
    pub fn build_update(self) -> (r: Result<BookingFieldSet, AppError>)
        ensures
            booking_build_ok(self) ==> (r matches Ok(f) && f.duration_minutes
                == self.duration_minutes && f.cancelled == self.cancelled && (match self.owner {
                Some(s) => f.owner matches Some(e) && e@ == decoded_bytes(s@),
                None => f.owner is None,
            }) && (match self.start_time {
                Some(s) => f.start_time matches Some(t) && rfc3339_parse(s@) == Ok::<
                    i64,
                    Seq<char>,
                >(t.millis),
                None => f.start_time is None,
            })),
            !booking_build_ok(self) ==> (r matches Err(e) && booking_build_err(self, e)),
    {
        let owner: Option<EntityId> = match &self.owner {
            Some(s) => match EntityId::decode(s.as_str()) {
                Ok(o) => Some(o),
                Err(_) => {
                    return Err(AppError::DatabaseError(
                        String::from_str("Update Failed: invalid owner ID"),
                    ));
                },
            },
            None => None,
        };
        let start_time: Option<Timestamp> = match &self.start_time {
            Some(s) => match parse_start_time(s.as_str()) {
                Ok(t) => Some(t),
                Err(e) => { return Err(e); },
            },
            None => None,
        };
        if owner.is_none() && start_time.is_none() && self.duration_minutes.is_none()
            && self.cancelled.is_none() {
            Err(AppError::ParseError(String::from_str("No fields provided to update")))
        } else {
            Ok(BookingFieldSet {
                owner,
                start_time,
                duration_minutes: self.duration_minutes,
                cancelled: self.cancelled,
            })
        }
    }
}

impl Booking {
    /// Applies a validated field set as a partial merge: supplied fields
    /// replace the stored ones; the identifier and absent fields are left
    /// untouched.
    pub fn apply_update(&mut self, f: BookingFieldSet)
        ensures
            final(self)._id == old(self)._id,
            final(self).owner == (match f.owner { Some(o) => o, None => old(self).owner }),
            final(self).start_time == (match f.start_time {
                Some(t) => t,
                None => old(self).start_time,
            }),
            final(self).duration_minutes == (match f.duration_minutes {
                Some(d) => d,
                None => old(self).duration_minutes,
            }),
            final(self).cancelled == (match f.cancelled {
                Some(c) => c,
                None => old(self).cancelled,
            }),
    {
        if let Some(o) = f.owner {
            self.owner = o;
        }
        if let Some(t) = f.start_time {
            self.start_time = t;
        }
        if let Some(d) = f.duration_minutes {
            self.duration_minutes = d;
        }
        if let Some(c) = f.cancelled {
            self.cancelled = c;
        }
    }
}

/// Creating then projecting: the duration round-trips verbatim; the owner
/// reference denotes the same identifier and is returned character for
/// character when it was canonical already; the start time in the response
/// is the rendering of exactly the instant the request's string parsed to;
/// a fresh booking is not cancelled; and the generated identifier is present
/// as canonical hex that decodes back to the entity's own identifier.
pub proof fn lemma_booking_create_round_trip(q: BookingRequest, o: Booking, resp: BookingResponse)
    requires
        valid_oid_str(q.owner@),
        rfc3339_parse(q.start_time@) is Ok,
        booking_from_request(o, q),
        booking_response_of(o, resp),
    ensures
        resp.duration_minutes == q.duration_minutes,
        resp.cancelled == false,
        decoded_bytes(resp.owner@) == decoded_bytes(q.owner@),
        canonical_oid_str(q.owner@) ==> resp.owner@ == q.owner@,
        resp.start_time@ == rfc3339_render(rfc3339_parse(q.start_time@)->Ok_0),
        canonical_oid_str(resp._id@),
        decoded_bytes(resp._id@) == o._id@,
{
    lemma_encode_decode(o._id@);
    lemma_encode_decode(o.owner@);
    if canonical_oid_str(q.owner@) {
        lemma_decode_encode(q.owner@);
    }
}

/// Well-formed gateway contents: every identifier holds 12 bytes and no two
/// documents share one.
pub open spec fn booking_docs_wf(s: Seq<BookingView>) -> bool {
    (forall|i: int| 0 <= i < s.len() ==> (#[trigger] s[i]).id.len() == 12)
        && (forall|i: int, j: int| 0 <= i < j < s.len() ==> (#[trigger] s[i]).id != (#[trigger] s[j]).id)
}

/// What a delete leaves behind: a malformed identifier is rejected before
/// any access, a missing document reports `NotFound`, and a match removes
/// exactly that document and returns the canonical hex identifier.
pub open spec fn booking_delete_post(
    pre: Seq<BookingView>,
    post: Seq<BookingView>,
    id: Seq<char>,
    r: Result<String, AppError>,
) -> bool {
    if !valid_oid_str(id) {
        r == Err::<String, AppError>(AppError::InvalidId) && post == pre
    } else if exists|i: int| 0 <= i < pre.len() && (#[trigger] pre[i]).id == decoded_bytes(id) {
        (r matches Ok(h) && h@ == hex_of(decoded_bytes(id))) && (exists|i: int|
            0 <= i < pre.len() && (#[trigger] pre[i]).id == decoded_bytes(id) && post == pre.remove(
                i,
            ))
    } else {
        r == Err::<String, AppError>(AppError::NotFound) && post == pre
    }
}

/// The Booking persistence gateway: one backing collection of booking
/// documents, addressed by identifier.
pub struct BookingStore {
    docs: Vec<Booking>,
}

impl View for BookingStore {
    type V = Seq<BookingView>;

    closed spec fn view(&self) -> Seq<BookingView> {
        Seq::new(self.docs@.len(), |i: int| self.docs@[i]@)
    }
}

impl BookingStore {
    pub open spec fn wf(&self) -> bool {
        booking_docs_wf(self@)
    }

    /// An empty collection.
    pub fn new() -> (r: Self)
        ensures
            r.wf(),
            r@ == Seq::<BookingView>::empty(),
    {
        let s = BookingStore { docs: Vec::new() };
        proof {
            assert(s@ =~= Seq::<BookingView>::empty());
        }
        s
    }

    /// The index of the document with the given identifier, if any.
    fn find_index(&self, id: &EntityId) -> (r: Option<usize>)
        ensures
            r matches Some(i) ==> i < self@.len() && self@[i as int].id == id@,
            r is None ==> forall|i: int| 0 <= i < self@.len() ==> (#[trigger] self@[i]).id != id@,
    {
        let n = self.docs.len();
        let mut i: usize = 0;
        while i < n
            invariant
                i <= n,
                n == self@.len(),
                n == self.docs@.len(),
                forall|j: int| 0 <= j < i ==> (#[trigger] self@[j]).id != id@,
            decreases n - i,
        {
            if self.docs[i]._id.matches_id(id) {
                return Some(i);
            }
            i += 1;
        }
        None
    }

    /// Inserts the entity as given; the identifier was already assigned by
    /// the conversion layer. The store rejects a duplicate identifier, as a
    /// backing collection keyed by it would; the entity is handed back
    /// unchanged on success.
    pub fn create(&mut self, booking: Booking) -> (r: Result<Booking, AppError>)
        requires
            old(self).wf(),
            booking._id.wf(),
        ensures
            final(self).wf(),
            (exists|i: int| 0 <= i < old(self)@.len() && (#[trigger] old(self)@[i]).id
                == booking._id@) ==> (r matches Err(AppError::DatabaseError(m))
                && m@ == "duplicate identifier"@ && final(self)@ == old(self)@),
            !(exists|i: int| 0 <= i < old(self)@.len() && (#[trigger] old(self)@[i]).id
                == booking._id@) ==> (r matches Ok(o) && o == booking && final(self)@ == old(
                self,
            )@.push(booking@)),
    {
        match self.find_index(&booking._id) {
            Some(_) => Err(AppError::DatabaseError(String::from_str("duplicate identifier"))),
            None => {
                let ghost pre = self@;
                self.docs.push(booking.clone());
                proof {
                    assert(self@ =~= pre.push(booking@));
                }
                Ok(booking)
            },
        }
    }

    /// Returns every stored document. The order is the insertion order here,
    /// though callers are promised no order.
    pub fn read_all(&self) -> (r: Vec<Booking>)
        ensures
            r@.len() == self@.len(),
            forall|i: int| 0 <= i < r@.len() ==> (#[trigger] r@[i])@ == self@[i],
    {
        let n = self.docs.len();
        let mut out: Vec<Booking> = Vec::new();
        let mut i: usize = 0;
        while i < n
            invariant
                i <= n,
                n == self@.len(),
                n == self.docs@.len(),
                out@.len() == i,
                forall|j: int| 0 <= j < i ==> (#[trigger] out@[j])@ == self@[j],
            decreases n - i,
        {
            out.push(self.docs[i].clone());
            i += 1;
        }
        out
    }

    /// Looks up one document by its identifier string. A malformed string is
    /// rejected as `InvalidId` before any access; a well-formed one either
    /// finds its document or reports `NotFound`.
    pub fn read_one(&self, id: &str) -> (r: Result<Booking, AppError>)
        requires
            self.wf(),
        ensures
            !valid_oid_str(id@) ==> r == Err::<Booking, AppError>(AppError::InvalidId),
            valid_oid_str(id@) ==> (match r {
                Ok(o) => o@.id == decoded_bytes(id@) && exists|i: int|
                    0 <= i < self@.len() && #[trigger] self@[i] == o@,
                Err(e) => e == AppError::NotFound && forall|i: int|
                    0 <= i < self@.len() ==> (#[trigger] self@[i]).id != decoded_bytes(id@),
            }),
    {
        let oid = match EntityId::decode(id) {
            Ok(o) => o,
            Err(e) => { return Err(e); },
        };
        match self.find_index(&oid) {
            Some(i) => Ok(self.docs[i].clone()),
            None => Err(AppError::NotFound),
        }
    }

    /// Applies an update as a partial merge onto the document with the given
    /// identifier. The identifier is decoded first, then the field set is
    /// validated; a store outcome that matched no document is still reported
    /// as success carrying the canonical hex identifier — this layer performs
    /// no existence check.
    pub fn update(&mut self, id: &str, u: BookingUpdateRequest) -> (r: Result<String, AppError>)
        requires
            old(self).wf(),
        ensures
            final(self).wf(),
            !valid_oid_str(id@) ==> r == Err::<String, AppError>(AppError::InvalidId)
                && final(self)@ == old(self)@,
            valid_oid_str(id@) && !booking_build_ok(u) ==> (r matches Err(e) && booking_build_err(
                u,
                e,
            ) && final(self)@ == old(self)@),
            valid_oid_str(id@) && booking_build_ok(u) ==> (r matches Ok(h)
                && h@ == hex_of(decoded_bytes(id@)) && final(self)@.len() == old(self)@.len()
                && (forall|i: int| 0 <= i < old(self)@.len() && (#[trigger] old(self)@[i]).id
                    != decoded_bytes(id@) ==> final(self)@[i] == old(self)@[i])
                && (forall|i: int| 0 <= i < old(self)@.len() && (#[trigger] old(self)@[i]).id
                    == decoded_bytes(id@) ==> final(self)@[i] == booking_merged(
                    old(self)@[i],
                    u,
                ))),
    {
        let oid = match EntityId::decode(id) {
            Ok(o) => o,
            Err(e) => { return Err(e); },
        };
        let ghost u0 = u;
        let fs = match u.build_update() {
            Ok(f) => f,
            Err(e) => { return Err(e); },
        };
        let ghost pre = self@;
        match self.find_index(&oid) {
            Some(i) => {
                let mut doc = self.docs.remove(i);
                doc.apply_update(fs);
                self.docs.insert(i, doc);
                proof {
                    assert(self@ =~= pre.update(i as int, booking_merged(pre[i as int], u0)));
                    assert forall|k: int|
                        0 <= k < pre.len() && (#[trigger] pre[k]).id == decoded_bytes(id@)
                        implies self@[k] == booking_merged(pre[k], u0) by {
                        if k != i {
                            assert(pre[k].id != pre[i as int].id);
                        }
                    }
                }
            },
            None => {},
        }
        Ok(oid.to_hex())
    }

    /// Removes the document with the given identifier. A malformed string is
    /// rejected before any access; a missing document reports `NotFound`; a
    /// match removes exactly that document and returns its hex identifier.
    pub fn delete(&mut self, id: &str) -> (r: Result<String, AppError>)
        requires
            old(self).wf(),
        ensures
            final(self).wf(),
            booking_delete_post(old(self)@, final(self)@, id@, r),
    {
        let oid = match EntityId::decode(id) {
            Ok(o) => o,
            Err(e) => { return Err(e); },
        };
        let ghost pre = self@;
        match self.find_index(&oid) {
            Some(i) => {
                self.docs.remove(i);
                proof {
                    assert(self@ =~= pre.remove(i as int));
                    assert forall|a: int, b: int| 0 <= a < b < self@.len() implies (
                    #[trigger] self@[a]).id != (#[trigger] self@[b]).id by {
                        if b < i as int {
                            assert(self@[a] == pre[a] && self@[b] == pre[b]);
                        } else if a < i as int {
                            assert(self@[a] == pre[a] && self@[b] == pre[b + 1]);
                        } else {
                            assert(self@[a] == pre[a + 1] && self@[b] == pre[b + 1]);
                        }
                    }
                }
                Ok(oid.to_hex())
            },
            None => Err(AppError::NotFound),
        }
    }
}

/// Deleting twice by the same identifier: when the first call succeeded, the
/// second finds nothing, reports `NotFound`, and leaves the collection as the
/// first call left it.
pub proof fn lemma_booking_delete_idempotent(
    s0: Seq<BookingView>,
    s1: Seq<BookingView>,
    s2: Seq<BookingView>,
    id: Seq<char>,
    r1: Result<String, AppError>,
    r2: Result<String, AppError>,
)
    requires
        booking_docs_wf(s0),
        booking_delete_post(s0, s1, id, r1),
        booking_delete_post(s1, s2, id, r2),
        r1 is Ok,
    ensures
        r2 == Err::<String, AppError>(AppError::NotFound),
        s2 == s1,
{
    let d = decoded_bytes(id);
    let i = choose|i: int| 0 <= i < s0.len() && (#[trigger] s0[i]).id == d && s1 == s0.remove(i);
    assert forall|j: int| 0 <= j < s1.len() implies (#[trigger] s1[j]).id != d by {
        if j < i {
            assert(s1[j] == s0[j]);
        } else {
            assert(s1[j] == s0[j + 1]);
        }
    }
}

} // verus!
