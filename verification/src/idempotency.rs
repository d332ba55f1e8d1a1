mod persistence;

pub use persistence::{
    HeaderPairRecord, SavedResponse, StatusCodeError, StoredResponse, lemma_saved_response_round_trip,
    lemma_stored_status_in_range, saved_reply, saved_record, status_from_stored,
};
