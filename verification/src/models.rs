//! The values that cross the boundary: requests, result envelopes and the
//! health report.

use vstd::prelude::*;

verus! {

/// A request for generated text. Every field is taken as it came: no field is
/// checked against a list of allowed values.
pub struct ContentRequest {
    pub prompt: String,
    pub content_type: String,
    pub language: String,
    pub company_id: String,
}

/// A request as contracts see it.
pub struct ContentRequestView {
    pub prompt: Seq<char>,
    pub content_type: Seq<char>,
    pub language: Seq<char>,
    pub company_id: Seq<char>,
}

impl View for ContentRequest {
    type V = ContentRequestView;

    open spec fn view(&self) -> ContentRequestView {
        ContentRequestView {
            prompt: self.prompt@,
            content_type: self.content_type@,
            language: self.language@,
            company_id: self.company_id@,
        }
    }
}

/// How a generation ended.
#[derive(Clone, Copy, Debug, PartialEq, Eq, Structural)]
pub enum Status {
    Completed,
    Failed,
}

impl Status {
    /// The word that stands for the status on the wire.
    pub open spec fn label(self) -> Seq<char> {
        match self {
            Status::Completed => "completed"@,
            Status::Failed => "failed"@,
        }
    }

    pub fn as_str(&self) -> (word: &'static str)
        ensures
            word@ == self.label(),
    {
        match self {
            Status::Completed => "completed",
            Status::Failed => "failed",
        }
    }
}

/// The result envelope of a generation that succeeded. There is no envelope
/// for one that failed: every value of this type has the status `Completed`.
pub struct ContentResponse {
    id: String,
    content: String,
    status: Status,
    created_at: String,
}

/// An envelope as contracts see it.
pub struct ContentResponseView {
    pub id: Seq<char>,
    pub content: Seq<char>,
    pub status: Status,
    pub created_at: Seq<char>,
}

/// The envelope that holds `content` under the identifier `id`, created at
/// `created_at`.
pub open spec fn envelope(
    id: Seq<char>,
    content: Seq<char>,
    created_at: Seq<char>,
) -> ContentResponseView {
    ContentResponseView { id, content, status: Status::Completed, created_at }
}

impl View for ContentResponse {
    type V = ContentResponseView;

    closed spec fn view(&self) -> ContentResponseView {
        ContentResponseView {
            id: self.id@,
            content: self.content@,
            status: self.status,
            created_at: self.created_at@,
        }
    }
}

impl ContentResponse {
    #[verifier::type_invariant]
    spec fn is_completed(self) -> bool {
        self.status == Status::Completed
    }

    /// Builds the envelope of a completed generation from its three parts,
    /// each kept as it is.
    pub fn completed(id: String, content: String, created_at: String) -> (response: Self)
        ensures
            response@ == envelope(id@, content@, created_at@),
    {
        ContentResponse { id, content, status: Status::Completed, created_at }
    }

    pub fn id(&self) -> (id: &str)
        ensures
            id@ == self@.id,
    {
        self.id.as_str()
    }

    pub fn content(&self) -> (content: &str)
        ensures
            content@ == self@.content,
    {
        self.content.as_str()
    }

    /// The status of an envelope, which is always `Completed`.
    pub fn status(&self) -> (status: Status)
        ensures
            status == self@.status,
            status == Status::Completed,
    {
        proof {
            use_type_invariant(self);
        }
        self.status
    }

    pub fn created_at(&self) -> (created_at: &str)
        ensures
            created_at@ == self@.created_at,
    {
        self.created_at.as_str()
    }
}

/// What the health endpoint reports.
pub struct HealthResponse {
    pub status: String,
    pub version: String,
}

} // verus!
