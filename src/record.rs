//! The record that keeps one finished exchange in the conversation store.
use vstd::prelude::*;
use crate::query::QueryError;
use crate::text::joined;

verus! {

/// The fields of a finished exchange, as the interface hands them over.
#[derive(Clone, Debug)]
pub struct ConversationData {
    pub question: String,
    pub response: String,
    pub context: String,
    pub timestamp: String,
    pub mode: String,
}

/// A stored exchange: its fields under a generated identifier. Two records
/// with equal fields are distinct records.
#[derive(Clone, Debug)]
pub struct ConversationRecord {
    pub id: String,
    pub question: String,
    pub response: String,
    pub context: String,
    pub timestamp: String,
    pub mode: String,
}

/// The record holds exactly `data`'s fields under the identifier `id`.
pub open spec fn is_record_of(rec: ConversationRecord, id: Seq<char>, data: ConversationData) -> bool {
    &&& rec.id@ == id
    &&& rec.question == data.question
    &&& rec.response == data.response
    &&& rec.context == data.context
    &&& rec.timestamp == data.timestamp
    &&& rec.mode == data.mode
}

/// A lowercase hexadecimal digit.
pub open spec fn is_lower_hex(c: char) -> bool {
    ('0' <= c && c <= '9') || ('a' <= c && c <= 'f')
}

/// `s` is a random (version 4, RFC 4122 variant) UUID in the hyphenated form:
/// 8-4-4-4-12 lowercase hexadecimal digits, version digit `4`, variant digit
/// one of `8`, `9`, `a`, `b`.
pub open spec fn is_uuid_v4_text(s: Seq<char>) -> bool {
    &&& s.len() == 36
    &&& forall|i: int| 0 <= i < 36 ==> (if i == 8 || i == 13 || i == 18 || i == 23 {
        #[trigger] s[i] == '-'
    } else {
        is_lower_hex(s[i])
    })
    &&& s[14] == '4'
    &&& (s[19] == '8' || s[19] == '9' || s[19] == 'a' || s[19] == 'b')
}

/// Relies on uuid's `Uuid::new_v4`, which draws random bits and sets the version
/// and variant bits, and its `to_string`, which writes the lowercase hyphenated form.
#[verifier::external_body]
fn random_uuid() -> (r: String)
    ensures
        is_uuid_v4_text(r@),
{
    uuid::Uuid::new_v4().to_string()
}

/// The record of `data` under the identifier `id`.
pub fn record_with_id(id: String, data: ConversationData) -> (r: ConversationRecord)
    ensures
        is_record_of(r, id@, data),
{
    ConversationRecord {
        id,
        question: data.question,
        response: data.response,
        context: data.context,
        timestamp: data.timestamp,
        mode: data.mode,
    }
}

/// The record of `data` under a freshly drawn random UUID as identifier.
pub fn new_record(data: ConversationData) -> (r: ConversationRecord)
    ensures
        is_uuid_v4_text(r.id@),
        is_record_of(r, r.id@, data),
{
    let id = random_uuid();
    record_with_id(id, data)
}

/// The name of the table that holds the records.
pub fn table_name() -> (r: String)
    ensures
        r@ == "tars-conversations"@,
{
    "tars-conversations".to_owned()
}

/// The attribute names and values of a record, in the order they are written.
pub open spec fn attributes_of(rec: ConversationRecord) -> Seq<(Seq<char>, Seq<char>)> {
    seq![
        ("id"@, rec.id@),
        ("question"@, rec.question@),
        ("response"@, rec.response@),
        ("context"@, rec.context@),
        ("timestamp"@, rec.timestamp@),
        ("mode"@, rec.mode@),
    ]
}

/// The view of a list of name and value pairs.
pub open spec fn pairs_view(v: Seq<(String, String)>) -> Seq<(Seq<char>, Seq<char>)> {
    v.map_values(|p: (String, String)| (p.0@, p.1@))
}

/// The attributes to write for `rec`: one string attribute per field, the
/// identifier first.
pub fn record_attributes(rec: &ConversationRecord) -> (r: Vec<(String, String)>)
    ensures
        pairs_view(r@) == attributes_of(*rec),
{
    let mut r: Vec<(String, String)> = Vec::new();
    r.push(("id".to_owned(), rec.id.clone()));
    r.push(("question".to_owned(), rec.question.clone()));
    r.push(("response".to_owned(), rec.response.clone()));
    r.push(("context".to_owned(), rec.context.clone()));
    r.push(("timestamp".to_owned(), rec.timestamp.clone()));
    r.push(("mode".to_owned(), rec.mode.clone()));
    proof {
        reveal_strlit("id");
        reveal_strlit("question");
        reveal_strlit("response");
        reveal_strlit("context");
        reveal_strlit("timestamp");
        reveal_strlit("mode");
        assert(pairs_view(r@) =~= attributes_of(*rec));
    }
    r
}

/// The confirmation shown once the record with identifier `id` is stored.
pub fn stored_message(id: &str) -> (r: String)
    ensures
        r@ == "Conversation stored with ID: "@ + id@,
{
    joined("Conversation stored with ID: ", id)
}

/// What the caller learns once the write of the record `id` has finished with
/// `written`: the confirmation naming the identifier, or the store's error.
pub fn store_outcome(id: &str, written: Result<(), String>) -> (r: Result<String, QueryError>)
    ensures
        written is Ok ==> (r matches Ok(m) && m@ == "Conversation stored with ID: "@ + id@),
        written matches Err(d) ==> (r matches Err(QueryError::PersistenceFailed(e)) && e == d),
{
    match written {
        Ok(()) => Ok(stored_message(id)),
        Err(d) => Err(QueryError::PersistenceFailed(d)),
    }
}

} // verus!
