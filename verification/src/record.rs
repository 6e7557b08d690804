use vstd::prelude::*;

verus! {

/// The mathematical image of one stored row: every field as a plain
/// mathematical value, with the step unbounded.
pub struct RecordData {
    pub user_id: Seq<char>,
    pub form_step: int,
    pub email: Seq<char>,
    pub therapy_for_whom: Seq<char>,
    pub therapist_gender: Seq<char>,
}

/// One row of the `form_data` table: a user's saved snapshot of the
/// multi-step form, keyed by `user_id`.
///
/// The table's `updated_at` column is refreshed by the storage layer on
/// every write and never read back by either service, so it has no field
/// here.
pub struct FormRecord {
    pub user_id: String,
    pub form_step: i32,
    pub email: String,
    pub therapy_for_whom: String,
    pub therapist_gender: String,
}

impl View for FormRecord {
    type V = RecordData;

    open spec fn view(&self) -> RecordData {
        RecordData {
            user_id: self.user_id@,
            form_step: self.form_step as int,
            email: self.email@,
            therapy_for_whom: self.therapy_for_whom@,
            therapist_gender: self.therapist_gender@,
        }
    }
}

} // verus!
