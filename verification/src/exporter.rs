//! What the export endpoint answers.
//!
//! The endpoint serves the snapshot under one path and sends every other
//! request there. Listening, and writing the answer to the wire, is the
//! business of the program that runs the endpoint; which answer is due is
//! decided here.
use vstd::prelude::*;
use vstd::string::StringExecFns;

verus! {

/// The status code of the answer that carries the snapshot.
pub const STATUS_OK: u16 = 200;

/// The status code of the answer that points to the metrics path.
pub const STATUS_MOVED: u16 = 301;

/// The export endpoint: where it listens and the path of the metrics.
pub struct Exporter {
    binding: String,
    endpoint: String,
}

/// The answer to one request.
pub enum Reply {
    /// The snapshot, with status 200.
    Metrics,
    /// A redirect to the metrics path, with status 301.
    Redirect {
        /// The value of the `Location` header.
        location: String,
        /// The text of the answer.
        body: String,
    },
}

/// An answer as contracts see it.
pub enum ReplyView {
    Metrics,
    Redirect { location: Seq<char>, body: Seq<char> },
}

impl View for Reply {
    type V = ReplyView;

    open spec fn view(&self) -> ReplyView {
        match self {
            Reply::Metrics => ReplyView::Metrics,
            Reply::Redirect { location, body } => ReplyView::Redirect {
                location: location@,
                body: body@,
            },
        }
    }
}

/// The answer of an endpoint that serves the metrics under `endpoint` to
/// a request for `url`.
pub open spec fn reply_for(endpoint: Seq<char>, url: Seq<char>) -> ReplyView {
    if url == endpoint {
        ReplyView::Metrics
    } else {
        ReplyView::Redirect {
            location: endpoint,
            body: "try "@ + endpoint + " for metrics\n"@,
        }
    }
}

impl Exporter {
    /// The address to listen on, as it was given.
    pub closed spec fn binding(&self) -> Seq<char> {
        self.binding@
    }

    /// The path under which the metrics are served.
    pub closed spec fn endpoint(&self) -> Seq<char> {
        self.endpoint@
    }

    /// An endpoint that listens on `binding` and serves the metrics under
    /// `/metrics`.
    pub fn builder(binding: &str) -> (exporter: Self)
        ensures
            exporter.binding() == binding@,
            exporter.endpoint() == "/metrics"@,
    {
        Self { binding: binding.to_owned(), endpoint: "/metrics".to_owned() }
    }

    /// The address to listen on.
    pub fn address(&self) -> (binding: &str)
        ensures
            binding@ == self.binding(),
    {
        self.binding.as_str()
    }

    /// The path under which the metrics are served.
    pub fn path(&self) -> (endpoint: &str)
        ensures
            endpoint@ == self.endpoint(),
    {
        self.endpoint.as_str()
    }

    /// The answer to a request for `url`: the metrics for the metrics path,
    /// a redirect to it for anything else.
    pub fn reply(&self, url: &str) -> (reply: Reply)
        ensures
            reply@ == reply_for(self.endpoint(), url@),
    {
        if url.to_owned() == self.endpoint {
            Reply::Metrics
        } else {
            let mut body = "try ".to_owned();
            body.append(self.endpoint.as_str());
            body.append(" for metrics\n");
            Reply::Redirect { location: self.endpoint.clone(), body }
        }
    }
}

impl Reply {
    /// The status code that goes with the answer.
    pub fn status_code(&self) -> (code: u16)
        ensures
            code == (if self@ is Metrics {
                STATUS_OK
            } else {
                STATUS_MOVED
            }),
    {
        match self {
            Reply::Metrics => STATUS_OK,
            Reply::Redirect { .. } => STATUS_MOVED,
        }
    }
}

} // verus!
