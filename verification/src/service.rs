use vstd::prelude::*;

use crate::ident::{fresh_uuid, is_uuid_text};
use crate::record::{FormRecord, RecordData};
use crate::store::FormStore;

verus! {

/// A partial form snapshot handed in for saving: an optional identifier,
/// the step reached, and the three answer fields.
pub struct SaveFormRequest {
    pub user_id: Option<String>,
    pub form_step: i32,
    pub email: String,
    pub therapy_for_whom: String,
    pub therapist_gender: String,
}

/// What a save hands back: the identifier under which the snapshot was
/// stored.
pub struct SaveFormResponse {
    pub user_id: String,
}

/// A request to reload saved progress for one identifier.
pub struct LoadFormRequest {
    pub user_id: String,
}

/// A reloaded snapshot; each field is present only where the store held
/// a value for it.
pub struct LoadFormResponse {
    pub user_id: Option<String>,
    pub form_step: Option<i32>,
    pub email: Option<String>,
    pub therapy_for_whom: Option<String>,
    pub therapist_gender: Option<String>,
}

/// Does a save under this supplied identifier call for a freshly issued
/// one? It does exactly when the identifier is absent or empty.
pub open spec fn wants_fresh_id(supplied: &Option<String>) -> bool {
    match supplied {
        Some(s) => s@.len() == 0,
        None => true,
    }
}

/// The identifier the caller supplied, for requests that supplied a
/// usable one.
pub open spec fn supplied_id(supplied: &Option<String>) -> Seq<char>
    recommends
        !wants_fresh_id(supplied),
{
    match supplied {
        Some(s) => s@,
        None => Seq::empty(),
    }
}

/// The row a save request stores once its identifier is resolved.
pub open spec fn saved_record(user_id: Seq<char>, req: SaveFormRequest) -> RecordData {
    RecordData {
        user_id: user_id,
        form_step: req.form_step as int,
        email: req.email@,
        therapy_for_whom: req.therapy_for_whom@,
        therapist_gender: req.therapist_gender@,
    }
}

/// The identifier policy of the save service: an absent or empty
/// identifier is replaced by a freshly issued one; any other identifier
/// is used verbatim, with no existence or ownership check.
pub fn resolve_user_id(supplied: Option<String>) -> (r: String)
    ensures
        wants_fresh_id(&supplied) ==> is_uuid_text(r@),
        !wants_fresh_id(&supplied) ==> r@ == supplied_id(&supplied),
        r@.len() > 0,
{
    match supplied {
        Some(s) => {
            if s.as_str().unicode_len() == 0 {
                fresh_uuid()
            } else {
                s
            }
        },
        None => fresh_uuid(),
    }
}

/// The save service: resolve the identifier, upsert the snapshot under
/// it, and return it. An existing row under the same identifier is
/// replaced whole; the rest of the table is untouched.
pub fn save_form(store: &mut FormStore, req: SaveFormRequest) -> (resp: SaveFormResponse)
    requires
        old(store).wf(),
    ensures
        final(store).wf(),
        resp.user_id@.len() > 0,
        wants_fresh_id(&req.user_id) ==> is_uuid_text(resp.user_id@),
        !wants_fresh_id(&req.user_id) ==> resp.user_id@ == supplied_id(&req.user_id),
        final(store)@ == old(store)@.insert(resp.user_id@, saved_record(resp.user_id@, req)),
{
    let user_id = resolve_user_id(req.user_id);
    let rec = FormRecord {
        user_id: user_id.clone(),
        form_step: req.form_step,
        email: req.email,
        therapy_for_whom: req.therapy_for_whom,
        therapist_gender: req.therapist_gender,
    };
    store.upsert(rec);
    SaveFormResponse { user_id }
}

/// The response policy of the load service, as a function of what the
/// lookup found. A found row is echoed field for field; a miss yields
/// the requested identifier, step `1`, and absent answer fields — the
/// "start of form" state, never an error.
pub fn load_response(requested: String, row: Option<FormRecord>) -> (resp: LoadFormResponse)
    ensures
        match row {
            Some(rec) => {
                &&& resp.user_id matches Some(u) && u@ == rec@.user_id
                &&& resp.form_step matches Some(n) && n as int == rec@.form_step
                &&& resp.email matches Some(e) && e@ == rec@.email
                &&& resp.therapy_for_whom matches Some(w) && w@ == rec@.therapy_for_whom
                &&& resp.therapist_gender matches Some(g) && g@ == rec@.therapist_gender
            },
            None => {
                &&& resp.user_id matches Some(u) && u@ == requested@
                &&& resp.form_step == Some(1i32)
                &&& resp.email is None
                &&& resp.therapy_for_whom is None
                &&& resp.therapist_gender is None
            },
        },
{
    match row {
        Some(rec) => LoadFormResponse {
            user_id: Some(rec.user_id),
            form_step: Some(rec.form_step),
            email: Some(rec.email),
            therapy_for_whom: Some(rec.therapy_for_whom),
            therapist_gender: Some(rec.therapist_gender),
        },
        None => LoadFormResponse {
            user_id: Some(requested),
            form_step: Some(1),
            email: None,
            therapy_for_whom: None,
            therapist_gender: None,
        },
    }
}

/// The load service: look the identifier up and answer by the load
/// response policy. A stored row comes back exactly as persisted; an
/// unknown identifier comes back as a fresh form at step `1`.
pub fn load_form(store: &FormStore, req: LoadFormRequest) -> (resp: LoadFormResponse)
    requires
        store.wf(),
    ensures
        store@.contains_key(req.user_id@) ==> {
            let rec = store@[req.user_id@];
            &&& resp.user_id matches Some(u) && u@ == req.user_id@
            &&& resp.form_step matches Some(n) && n as int == rec.form_step
            &&& resp.email matches Some(e) && e@ == rec.email
            &&& resp.therapy_for_whom matches Some(w) && w@ == rec.therapy_for_whom
            &&& resp.therapist_gender matches Some(g) && g@ == rec.therapist_gender
        },
        !store@.contains_key(req.user_id@) ==> {
            &&& resp.user_id matches Some(u) && u@ == req.user_id@
            &&& resp.form_step == Some(1i32)
            &&& resp.email is None
            &&& resp.therapy_for_whom is None
            &&& resp.therapist_gender is None
        },
{
    let row = store.find(&req.user_id);
    match row {
        Some(rec) => {
            let owned = FormRecord {
                user_id: rec.user_id.clone(),
                form_step: rec.form_step,
                email: rec.email.clone(),
                therapy_for_whom: rec.therapy_for_whom.clone(),
                therapist_gender: rec.therapist_gender.clone(),
            };
            load_response(req.user_id, Some(owned))
        },
        None => load_response(req.user_id, None),
    }
}

/// The closed set of failure sources, each wrapping the underlying
/// cause's text: I/O, the storage driver, reading configuration, and
/// parsing configuration. All are treated uniformly at the boundary.
pub enum ServiceError {
    Io(String),
    Driver(String),
    ConfigRead(String),
    ConfigParse(String),
}

impl ServiceError {
    /// The status every failure collapses to: one opaque internal
    /// server error, whatever the source, leaking no detail.
    pub fn status_code(&self) -> (r: u16)
        ensures
            r == 500,
    {
        500
    }
}

} // verus!
