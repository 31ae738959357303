//! The bridge to the search index: which request an operation submits, and
//! what the answer of the index means.

use vstd::prelude::*;

verus! {

/// A journey as the search index holds it.
#[derive(Debug, Clone)]
pub struct MyAdventures {
    /// The identifier of the record, which is also that of the document.
    pub id: i64,
    pub title: String,
    pub image_url: String,
    pub link: String,
    pub source: u8,
    pub journey_destiny: String,
}

/// How far the index has come with a request.
#[derive(Debug, Clone, Copy, PartialEq, Eq, Structural)]
pub enum IndexStatus {
    /// The request was carried out.
    Succeeded,
    /// The request was taken in and is not carried out yet.
    Enqueued,
    /// The request was not carried out, or not all of it.
    Failed,
}

impl IndexStatus {
    /// Whether the index confirms the request: only `Succeeded` does.
    pub open spec fn spec_confirmed(self) -> bool {
        self is Succeeded
    }

    /// Whether the index confirms the request.
    #[verifier::when_used_as_spec(spec_confirmed)]
    pub fn confirmed(self) -> (yes: bool)
        ensures
            yes == self.spec_confirmed(),
    {
        match self {
            IndexStatus::Succeeded => true,
            _ => false,
        }
    }
}

/// The index could not be reached or did not keep to its protocol.
#[derive(Debug, Clone)]
pub struct SearchError {
    pub report: String,
}

/// A request to the index.
#[derive(Debug, Clone)]
pub enum IndexRequest {
    /// Add these documents, replacing those with the same identifiers.
    Upsert(Vec<MyAdventures>),
    /// Delete the documents with these identifiers.
    Delete(Vec<i64>),
}

/// What an operation of the bridge comes to before the index is involved.
#[derive(Debug, Clone)]
pub enum IndexStep {
    /// The operation is over with this result, and the index is not called.
    Finished(bool),
    /// The request is to be submitted, and its answer decides the result.
    Submit(IndexRequest),
}

/// Mirrors one record: the batch of that one document is submitted.
pub fn add_adventure(ad: MyAdventures) -> (step: IndexStep)
    ensures
        step matches IndexStep::Submit(IndexRequest::Upsert(ads)) && ads@ == seq![ad],
{
    let mut ads: Vec<MyAdventures> = Vec::new();
    ads.push(ad);
    assert(ads@ == seq![ad]);
    add_adventures(ads)
}

/// Mirrors a batch of records: the batch is submitted as it is.
pub fn add_adventures(ads: Vec<MyAdventures>) -> (step: IndexStep)
    ensures
        step == IndexStep::Submit(IndexRequest::Upsert(ads)),
{
    IndexStep::Submit(IndexRequest::Upsert(ads))
}

/// Removes one record from the index. An identifier below 1 names no record:
/// the operation is then over with `false` and nothing is submitted. Any
/// other identifier is submitted as a batch of one.
pub fn delete_adventure(uid: i64) -> (step: IndexStep)
    ensures
        uid < 1 ==> step == IndexStep::Finished(false),
        uid >= 1 ==> (step matches IndexStep::Submit(IndexRequest::Delete(uids)) && uids@
            == seq![uid]),
{
    if uid < 1 {
        return IndexStep::Finished(false);
    }
    let mut uids: Vec<i64> = Vec::new();
    uids.push(uid);
    assert(uids@ == seq![uid]);
    delete_adventures(uids)
}

/// Removes a batch of records from the index: the batch is submitted as it
/// is.
pub fn delete_adventures(uids: Vec<i64>) -> (step: IndexStep)
    ensures
        step == IndexStep::Submit(IndexRequest::Delete(uids)),
{
    IndexStep::Submit(IndexRequest::Delete(uids))
}

/// The result of an operation whose request was submitted, given the answer
/// of the index: `true` where the index reports success, `false` for any
/// other status, and the error unchanged where the index could not be
/// asked.
pub fn completed(answer: Result<IndexStatus, SearchError>) -> (result: Result<bool, SearchError>)
    ensures
        answer matches Ok(status) ==> result == Ok::<bool, SearchError>(status.confirmed()),
        answer matches Err(e) ==> result == Err::<bool, SearchError>(e),
{
    match answer {
        Ok(status) => Ok(status.confirmed()),
        Err(e) => Err(e),
    }
}

} // verus!
