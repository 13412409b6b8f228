//! The values one ingestion run works on: the request sent to the embedding
//! service, the response it gives back, and the database settings.

use crate::text::{nat_text, push_nat};
use std::sync::Arc;
use vstd::prelude::*;

verus! {

/// Texts to embed with one model. After it is shared it is only read.
pub struct EmbedRequest {
    pub model: String,
    pub input: Vec<String>,
    pub metadata: Option<String>,
}

/// One embedding vector per input, in input order. Each coordinate is held as
/// the decimal text in which the vector is written to the store.
pub struct EmbedResponse {
    pub model: String,
    pub embeddings: Vec<Vec<String>>,
}

/// Where the vector store lives. Holds no connection.
pub struct VectorDbConfig {
    pub host: String,
    pub port: u16,
    pub user: String,
    pub dbname: String,
    pub timeout: u64,
}

/// Copies a list of strings.
pub fn clone_strings(v: &Vec<String>) -> (r: Vec<String>)
    ensures
        r.deep_view() == v.deep_view(),
{
    let mut r: Vec<String> = Vec::new();
    let mut i: usize = 0;
    while i < v.len()
        invariant
            i <= v.len(),
            r@.len() == i,
            forall|j: int| 0 <= j < i ==> (#[trigger] r@[j])@ == v@[j]@,
        decreases v.len() - i,
    {
        let s = v[i].clone();
        r.push(s);
        i = i + 1;
    }
    assert(r.deep_view() =~= v.deep_view());
    r
}

/// Copies a list of embedding vectors.
pub fn clone_embeddings(v: &Vec<Vec<String>>) -> (r: Vec<Vec<String>>)
    ensures
        r.deep_view() == v.deep_view(),
{
    let mut r: Vec<Vec<String>> = Vec::new();
    let mut i: usize = 0;
    while i < v.len()
        invariant
            i <= v.len(),
            r@.len() == i,
            forall|j: int| 0 <= j < i ==> (#[trigger] r@[j]).deep_view() == v@[j].deep_view(),
        decreases v.len() - i,
    {
        let e = clone_strings(&v[i]);
        r.push(e);
        i = i + 1;
    }
    assert(r.deep_view() =~= v.deep_view());
    r
}

impl EmbedRequest {
    pub fn add_input(&mut self, input: &str)
        ensures
            final(self).model == old(self).model,
            final(self).metadata == old(self).metadata,
            final(self).input.deep_view() == old(self).input.deep_view().push(input@),
    {
        self.input.push(String::from_str(input));
        assert(self.input.deep_view() =~= old(self).input.deep_view().push(input@));
    }

    pub fn set_model(&mut self, model: String)
        ensures
            final(self).model == model,
            final(self).input == old(self).input,
            final(self).metadata == old(self).metadata,
    {
        self.model = model;
    }

    pub fn get_input(&self) -> (r: Vec<String>)
        ensures
            r.deep_view() == self.input.deep_view(),
    {
        clone_strings(&self.input)
    }

    pub fn get_model(&self) -> (r: String)
        ensures
            r@ == self.model@,
    {
        self.model.clone()
    }

    /// A request behind a shared pointer: every holder reads it, none can
    /// change it.
    #[allow(non_snake_case)]
    pub fn NewArcEmbedRequest(model: &String, input: &Vec<String>, metadata: &String) -> (r: Arc<
        EmbedRequest,
    >)
        ensures
            r.model@ == model@,
            r.input.deep_view() == input.deep_view(),
            r.metadata.deep_view() == Some(metadata@),
    {
        let data = EmbedRequest {
            model: model.clone(),
            input: clone_strings(input),
            metadata: Some(metadata.clone()),
        };
        Arc::new(data)
    }

    #[allow(non_snake_case)]
    pub fn NewEmbedRequest(model: &str, input: Vec<&str>) -> (r: EmbedRequest)
        ensures
            r.model@ == model@,
            r.input.deep_view() == input@.map_values(|s: &str| s@),
            r.metadata is None,
    {
        let mut v: Vec<String> = Vec::new();
        let mut i: usize = 0;
        while i < input.len()
            invariant
                i <= input.len(),
                v@.len() == i,
                forall|j: int| 0 <= j < i ==> (#[trigger] v@[j])@ == input@[j]@,
            decreases input.len() - i,
        {
            v.push(String::from_str(input[i]));
            i = i + 1;
        }
        assert(v.deep_view() =~= input@.map_values(|s: &str| s@));
        EmbedRequest { model: String::from_str(model), input: v, metadata: None }
    }

    #[allow(non_snake_case)]
    pub fn EmptyEmbedRequest() -> (r: EmbedRequest)
        ensures
            r.model@ == Seq::<char>::empty(),
            r.input@.len() == 0,
            r.metadata is None,
    {
        EmbedRequest { model: String::new(), input: Vec::new(), metadata: None }
    }
}

impl EmbedResponse {
    /// The response that stands for a failed fetch: no model, no vectors.
    pub open spec fn is_empty_sentinel(&self) -> bool {
        self.model@.len() == 0 && self.embeddings@.len() == 0
    }

    pub fn add_embedding(&mut self, embedding: Vec<String>)
        ensures
            final(self).model == old(self).model,
            final(self).embeddings@ == old(self).embeddings@.push(embedding),
    {
        self.embeddings.push(embedding);
    }

    pub fn set_model(&mut self, model: String)
        ensures
            final(self).model == model,
            final(self).embeddings == old(self).embeddings,
    {
        self.model = model;
    }

    pub fn get_embeddings(&self) -> (r: Vec<Vec<String>>)
        ensures
            r.deep_view() == self.embeddings.deep_view(),
    {
        clone_embeddings(&self.embeddings)
    }

    pub fn get_model(&self) -> (r: String)
        ensures
            r@ == self.model@,
    {
        self.model.clone()
    }

    #[allow(non_snake_case)]
    pub fn EmptyEmbedResponse() -> (r: EmbedResponse)
        ensures
            r.is_empty_sentinel(),
    {
        EmbedResponse { model: String::new(), embeddings: Vec::new() }
    }

    #[allow(non_snake_case)]
    pub fn NewEmbedResponse(model: String, embeddings: Vec<Vec<String>>) -> (r: EmbedResponse)
        ensures
            r.model == model,
            r.embeddings == embeddings,
    {
        EmbedResponse { model, embeddings }
    }
}

/// The connection string of a configuration, as the database client reads it.
pub open spec fn connection_text(host: Seq<char>, port: u16, user: Seq<char>, dbname: Seq<char>) -> Seq<char> {
    "host="@ + host + " port="@ + nat_text(port as nat) + " user="@ + user + " dbname="@ + dbname
}

impl VectorDbConfig {
    pub fn to_string(&self) -> (r: String)
        ensures
            r@ == connection_text(self.host@, self.port, self.user@, self.dbname@),
    {
        proof {
            reveal_strlit("host=");
            reveal_strlit(" port=");
            reveal_strlit(" user=");
            reveal_strlit(" dbname=");
        }
        let mut r = String::from_str("host=");
        r.append(self.host.as_str());
        r.append(" port=");
        push_nat(&mut r, self.port as u64);
        r.append(" user=");
        r.append(self.user.as_str());
        r.append(" dbname=");
        r.append(self.dbname.as_str());
        r
    }

    pub fn clone(&self) -> (r: VectorDbConfig)
        ensures
            r.host@ == self.host@,
            r.port == self.port,
            r.user@ == self.user@,
            r.dbname@ == self.dbname@,
            r.timeout == self.timeout,
    {
        VectorDbConfig {
            host: self.host.clone(),
            port: self.port,
            user: self.user.clone(),
            dbname: self.dbname.clone(),
            timeout: self.timeout,
        }
    }

    /// A configuration with the default timeout of five seconds.
    #[allow(non_snake_case)]
    pub fn NewVectorDbConfig(host: &str, port: u16, user: &str, dbname: &str) -> (r: VectorDbConfig)
        ensures
            r.host@ == host@,
            r.port == port,
            r.user@ == user@,
            r.dbname@ == dbname@,
            r.timeout == 5,
    {
        VectorDbConfig {
            host: String::from_str(host),
            port,
            user: String::from_str(user),
            dbname: String::from_str(dbname),
            timeout: 5,
        }
    }
}

} // verus!
