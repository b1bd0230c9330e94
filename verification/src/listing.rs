//! The three listings of a vector store: what is asked of the service, and
//! how what it returns becomes the JSON text of the reply.
//!
//! A listing is one request and one page of results. The caller sends the
//! request and hands the outcome over: the entities returned, or the
//! description of the failure. The reply is the JSON text of an array with one
//! record per entity, or the failure's description unchanged.

use crate::document::{document_to_value, Document, Float};
use crate::json::{
    array_value, describe, insert_member, json_of, json_of_each, json_text, keys, member,
    members_of, new_members, no_items, no_members, null_value, object_value, string_value,
    write_array, Json,
};
use vstd::prelude::*;

verus! {

/// A vector bucket: a top-level container of vector indexes.
#[derive(Clone, Debug, PartialEq)]
pub struct VectorBucket {
    pub name: String,
    pub arn: String,
}

/// A vector index: a named collection of vectors within a bucket.
#[derive(Clone, Debug, PartialEq)]
pub struct VectorIndex {
    pub index_name: String,
    pub vector_bucket_name: String,
    pub index_arn: String,
}

/// The numeric data of a vector.
#[derive(Clone, Debug, PartialEq)]
pub enum VectorData {
    /// A sequence of 32-bit floating-point components.
    Float32(Vec<Float>),
    /// Data of a kind this library does not know.
    Unknown,
}

/// A vector as a listing returns it: its key and, where the service sent
/// them, its data and its metadata.
#[derive(Debug, PartialEq)]
pub struct VectorEntry {
    pub key: String,
    pub data: Option<VectorData>,
    pub metadata: Option<Document>,
}

/// What is asked of the service to list the vectors of an index.
#[derive(Clone, Debug, PartialEq)]
pub struct VectorsRequest {
    pub vector_bucket_name: String,
    pub index_name: String,
    /// Whether the service is to send each vector's data.
    pub return_data: bool,
    /// Whether the service is to send each vector's metadata.
    pub return_metadata: bool,
}

/// What each component of a vector's data holds, in order.
pub open spec fn component_list(components: Seq<Float>) -> Seq<Json> {
    Seq::new(components.len(), |i: int| components[i]@)
}

impl VectorBucket {
    /// The record of a bucket: its name and its ARN.
    pub open spec fn record(&self) -> Json {
        Json::Object(
            no_members().insert("name"@, Json::Text(self.name@)).insert(
                "arn"@,
                Json::Text(self.arn@),
            ),
        )
    }
}

impl VectorIndex {
    /// The record of an index: its name, under two keys, the name of its
    /// bucket, and its ARN.
    pub open spec fn record(&self) -> Json {
        Json::Object(
            no_members().insert("indexName"@, Json::Text(self.index_name@)).insert(
                "vectorBucketName"@,
                Json::Text(self.vector_bucket_name@),
            ).insert("indexArn"@, Json::Text(self.index_arn@)).insert(
                "index_name"@,
                Json::Text(self.index_name@),
            ),
        )
    }
}

impl VectorEntry {
    /// The `data` member of a vector's record: the list of its components,
    /// and the empty list where it has none of a known kind.
    pub open spec fn data_json(&self) -> Json {
        match self.data {
            Some(VectorData::Float32(components)) => Json::List(component_list(components@)),
            Some(VectorData::Unknown) => Json::List(no_items()),
            None => Json::List(no_items()),
        }
    }

    /// The `metadata` member of a vector's record: what the metadata
    /// document denotes, and null where there is none.
    pub open spec fn metadata_json(&self) -> Json {
        match self.metadata {
            Some(document) => document@,
            None => Json::Null,
        }
    }

    /// The record of a vector: its key, its data and its metadata.
    pub open spec fn record(&self) -> Json {
        Json::Object(
            no_members().insert("key"@, Json::Text(self.key@)).insert(
                "data"@,
                self.data_json(),
            ).insert("metadata"@, self.metadata_json()),
        )
    }
}

/// The records of a sequence of buckets, in order.
pub open spec fn bucket_list(buckets: Seq<VectorBucket>) -> Seq<Json> {
    Seq::new(buckets.len(), |i: int| buckets[i].record())
}

/// The records of a sequence of indexes, in order.
pub open spec fn index_list(indexes: Seq<VectorIndex>) -> Seq<Json> {
    Seq::new(indexes.len(), |i: int| indexes[i].record())
}

/// The records of a sequence of vectors, in order.
pub open spec fn vector_list(vectors: Seq<VectorEntry>) -> Seq<Json> {
    Seq::new(vectors.len(), |i: int| vectors[i].record())
}

/// Whether a reply is the one owed for a listing with these records: their
/// JSON text as the payload, or a failure where no text can be written for
/// them.
pub open spec fn is_reply_for(reply: Result<String, String>, records: Seq<Json>) -> bool {
    match json_text(records) {
        Some(text) => reply matches Ok(payload) && payload@ == text,
        None => reply is Err,
    }
}

/// The request that lists the vectors of an index. It names the bucket and
/// the index as given, unvalidated, and asks for the data and the metadata
/// of each vector: the service sends neither unless asked.
pub fn vectors_request(bucket: String, index: String) -> (request: VectorsRequest)
    ensures
        request.vector_bucket_name == bucket,
        request.index_name == index,
        request.return_data,
        request.return_metadata,
{
    VectorsRequest {
        vector_bucket_name: bucket,
        index_name: index,
        return_data: true,
        return_metadata: true,
    }
}

/// Maps a bucket to its record: an object with the members `name` and
/// `arn` and no other.
pub fn bucket_record(bucket: &VectorBucket) -> (value: serde_json::Value)
    ensures
        json_of(value) == bucket.record(),
        keys(json_of(value)) == set!["name"@, "arn"@],
        member(json_of(value), "name"@) == Some(Json::Text(bucket.name@)),
        member(json_of(value), "arn"@) == Some(Json::Text(bucket.arn@)),
{
    let mut members = new_members();
    insert_member(&mut members, "name".to_owned(), string_value(bucket.name.clone()));
    insert_member(&mut members, "arn".to_owned(), string_value(bucket.arn.clone()));
    proof {
        reveal_strlit("name");
        reveal_strlit("arn");
        assert("name"@.len() == 4 && "arn"@.len() == 3);
        assert(members_of(members).dom() =~= set!["name"@, "arn"@]);
    }
    object_value(members)
}

/// Maps an index to its record: an object with the members `indexName`,
/// `vectorBucketName`, `indexArn` and `index_name` and no other. The name of
/// the index stands under both `indexName` and `index_name`.
pub fn index_record(index: &VectorIndex) -> (value: serde_json::Value)
    ensures
        json_of(value) == index.record(),
        keys(json_of(value)) == set![
            "indexName"@,
            "vectorBucketName"@,
            "indexArn"@,
            "index_name"@,
        ],
        member(json_of(value), "indexName"@) == Some(Json::Text(index.index_name@)),
        member(json_of(value), "vectorBucketName"@) == Some(Json::Text(index.vector_bucket_name@)),
        member(json_of(value), "indexArn"@) == Some(Json::Text(index.index_arn@)),
        member(json_of(value), "index_name"@) == Some(Json::Text(index.index_name@)),
{
    let mut members = new_members();
    insert_member(&mut members, "indexName".to_owned(), string_value(index.index_name.clone()));
    insert_member(
        &mut members,
        "vectorBucketName".to_owned(),
        string_value(index.vector_bucket_name.clone()),
    );
    insert_member(&mut members, "indexArn".to_owned(), string_value(index.index_arn.clone()));
    insert_member(&mut members, "index_name".to_owned(), string_value(index.index_name.clone()));
    proof {
        reveal_strlit("indexName");
        reveal_strlit("vectorBucketName");
        reveal_strlit("indexArn");
        reveal_strlit("index_name");
        assert("indexName"@.len() == 9 && "vectorBucketName"@.len() == 16);
        assert("indexArn"@.len() == 8 && "index_name"@.len() == 10);
        assert(members_of(members).dom() =~= set![
            "indexName"@,
            "vectorBucketName"@,
            "indexArn"@,
            "index_name"@,
        ]);
    }
    object_value(members)
}

/// The JSON array without elements.
fn empty_array() -> (value: serde_json::Value)
    ensures
        json_of(value) == Json::List(no_items()),
{
    let values: Vec<serde_json::Value> = Vec::new();
    assert(json_of_each(values@) =~= no_items());
    array_value(values)
}

/// The JSON array of a vector's components.
fn components_value(components: &Vec<Float>) -> (value: serde_json::Value)
    ensures
        json_of(value) == Json::List(component_list(components@)),
{
    let mut values: Vec<serde_json::Value> = Vec::new();
    let mut i: usize = 0;
    while i < components.len()
        invariant
            i <= components.len(),
            values@.len() == i,
            forall|j: int| 0 <= j < i ==> json_of(#[trigger] values@[j]) == components@[j]@,
        decreases components.len() - i,
    {
        values.push(components[i].encoded().clone());
        i += 1;
    }
    assert(json_of_each(values@) =~= component_list(components@));
    array_value(values)
}

/// Maps a vector to its record: an object with the members `key`, `data`
/// and `metadata` and no other.
///
/// Where the vector has no data of a known kind, `data` is the empty array,
/// neither null nor left out; where it has no metadata, `metadata` is null.
pub fn vector_record(vector: &VectorEntry) -> (value: serde_json::Value)
    ensures
        json_of(value) == vector.record(),
        keys(json_of(value)) == set!["key"@, "data"@, "metadata"@],
        member(json_of(value), "key"@) == Some(Json::Text(vector.key@)),
        member(json_of(value), "data"@) == Some(vector.data_json()),
        member(json_of(value), "metadata"@) == Some(vector.metadata_json()),
        !(vector.data matches Some(VectorData::Float32(_))) ==> member(json_of(value), "data"@)
            == Some(Json::List(no_items())),
        vector.metadata is None ==> member(json_of(value), "metadata"@) == Some(Json::Null),
{
    let data = match &vector.data {
        Some(VectorData::Float32(components)) => components_value(components),
        Some(VectorData::Unknown) => empty_array(),
        None => empty_array(),
    };
    let metadata = match &vector.metadata {
        Some(document) => document_to_value(document),
        None => null_value(),
    };
    let mut members = new_members();
    insert_member(&mut members, "key".to_owned(), string_value(vector.key.clone()));
    insert_member(&mut members, "data".to_owned(), data);
    insert_member(&mut members, "metadata".to_owned(), metadata);
    proof {
        reveal_strlit("key");
        reveal_strlit("data");
        reveal_strlit("metadata");
        assert("key"@.len() == 3 && "data"@.len() == 4 && "metadata"@.len() == 8);
        assert(members_of(members).dom() =~= set!["key"@, "data"@, "metadata"@]);
    }
    object_value(members)
}

/// Maps each bucket to its record, in order.
pub fn bucket_records(buckets: &Vec<VectorBucket>) -> (values: Vec<serde_json::Value>)
    ensures
        json_of_each(values@) == bucket_list(buckets@),
{
    let mut values: Vec<serde_json::Value> = Vec::new();
    let mut i: usize = 0;
    while i < buckets.len()
        invariant
            i <= buckets.len(),
            values@.len() == i,
            forall|j: int| 0 <= j < i ==> json_of(#[trigger] values@[j]) == buckets@[j].record(),
        decreases buckets.len() - i,
    {
        values.push(bucket_record(&buckets[i]));
        i += 1;
    }
    assert(json_of_each(values@) =~= bucket_list(buckets@));
    values
}

/// Maps each index to its record, in order.
pub fn index_records(indexes: &Vec<VectorIndex>) -> (values: Vec<serde_json::Value>)
    ensures
        json_of_each(values@) == index_list(indexes@),
{
    let mut values: Vec<serde_json::Value> = Vec::new();
    let mut i: usize = 0;
    while i < indexes.len()
        invariant
            i <= indexes.len(),
            values@.len() == i,
            forall|j: int| 0 <= j < i ==> json_of(#[trigger] values@[j]) == indexes@[j].record(),
        decreases indexes.len() - i,
    {
        values.push(index_record(&indexes[i]));
        i += 1;
    }
    assert(json_of_each(values@) =~= index_list(indexes@));
    values
}

/// Maps each vector to its record, in order.
pub fn vector_records(vectors: &Vec<VectorEntry>) -> (values: Vec<serde_json::Value>)
    ensures
        json_of_each(values@) == vector_list(vectors@),
{
    let mut values: Vec<serde_json::Value> = Vec::new();
    let mut i: usize = 0;
    while i < vectors.len()
        invariant
            i <= vectors.len(),
            values@.len() == i,
            forall|j: int| 0 <= j < i ==> json_of(#[trigger] values@[j]) == vectors@[j].record(),
        decreases vectors.len() - i,
    {
        values.push(vector_record(&vectors[i]));
        i += 1;
    }
    assert(json_of_each(values@) =~= vector_list(vectors@));
    values
}

/// Turns the outcome of writing the records as text into the reply: the
/// text as it is, or the description of the failure.
pub fn written_reply(written: Result<String, serde_json::Error>) -> (reply: Result<String, String>)
    ensures
        match written {
            Ok(text) => reply matches Ok(payload) && payload == text,
            Err(_) => reply is Err,
        },
{
    match written {
        Ok(text) => Ok(text),
        Err(failure) => Err(describe(&failure)),
    }
}

/// The reply to a listing whose request succeeded: the records written as
/// the text of one JSON array, or the description of the failure to write
/// them. It succeeds exactly when the text can be written.
pub fn records_reply(records: &Vec<serde_json::Value>) -> (reply: Result<String, String>)
    ensures
        is_reply_for(reply, json_of_each(records@)),
{
    written_reply(write_array(records))
}

/// The reply to a request for the list of buckets.
///
/// A failed request is answered with the description of its failure,
/// unchanged. A request that succeeded is answered with the JSON text of
/// the array of the buckets' records, in the order the service gave them, and
/// with a failure only where that text cannot be written.
pub fn bucket_list_reply(outcome: Result<Vec<VectorBucket>, String>) -> (reply: Result<
    String,
    String,
>)
    ensures
        match outcome {
            Ok(buckets) => is_reply_for(reply, bucket_list(buckets@)),
            Err(message) => reply matches Err(text) && text == message,
        },
        outcome matches Ok(buckets) && buckets@.len() == 0 ==> is_reply_for(reply, no_items()),
{
    match outcome {
        Ok(buckets) => {
            assert(buckets@.len() == 0 ==> bucket_list(buckets@) =~= no_items());
            records_reply(&bucket_records(&buckets))
        },
        Err(message) => Err(message),
    }
}

/// The reply to a request for the list of a bucket's indexes.
///
/// A failed request is answered with the description of its failure,
/// unchanged. A request that succeeded is answered with the JSON text of
/// the array of the indexes' records, in the order the service gave them, and
/// with a failure only where that text cannot be written.
pub fn bucket_indexes_reply(outcome: Result<Vec<VectorIndex>, String>) -> (reply: Result<
    String,
    String,
>)
    ensures
        match outcome {
            Ok(indexes) => is_reply_for(reply, index_list(indexes@)),
            Err(message) => reply matches Err(text) && text == message,
        },
        outcome matches Ok(indexes) && indexes@.len() == 0 ==> is_reply_for(reply, no_items()),
{
    match outcome {
        Ok(indexes) => {
            assert(indexes@.len() == 0 ==> index_list(indexes@) =~= no_items());
            records_reply(&index_records(&indexes))
        },
        Err(message) => Err(message),
    }
}

/// The reply to a request for the list of an index's vectors.
///
/// A failed request is answered with the description of its failure,
/// unchanged. A request that succeeded is answered with the JSON text of
/// the array of the vectors' records, in the order the service gave them, and
/// with a failure only where that text cannot be written.
pub fn bucket_vectors_reply(outcome: Result<Vec<VectorEntry>, String>) -> (reply: Result<
    String,
    String,
>)
    ensures
        match outcome {
            Ok(vectors) => is_reply_for(reply, vector_list(vectors@)),
            Err(message) => reply matches Err(text) && text == message,
        },
        outcome matches Ok(vectors) && vectors@.len() == 0 ==> is_reply_for(reply, no_items()),
{
    match outcome {
        Ok(vectors) => {
            assert(vectors@.len() == 0 ==> vector_list(vectors@) =~= no_items());
            records_reply(&vector_records(&vectors))
        },
        Err(message) => Err(message),
    }
}

} // verus!
