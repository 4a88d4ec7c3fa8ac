//! Failures, and the transport-level reply each one becomes.
use vstd::prelude::*;
use vstd::string::*;
use crate::json::{array, json_string_text, quote, spec_array, texts};

verus! {

/// One violated rule: the field it was found on and what is wrong with it.
#[derive(Debug, Clone, PartialEq, Eq)]
pub struct FieldError {
    pub field: String,
    pub message: String,
}

/// What a failure tells the caller.
#[derive(Debug, Clone, PartialEq, Eq)]
pub enum Detail {
    /// Passed through as a bare JSON string.
    Bare(String),
    /// Wrapped as `{"error": <message>}`.
    Message(String),
}

/// The failures a request can end in.
#[derive(Debug, Clone, PartialEq, Eq)]
pub enum Error {
    /// 401: the credential is missing or was not accepted.
    Unauthorized(Detail),
    /// 404: the resource named by the request does not exist.
    NotFound(Detail),
    /// 422: the payload broke the listed rules.
    UnprocessableEntity(Vec<FieldError>),
    /// 500: a fault on the server's side, of which nothing is told.
    InternalServerError,
}

/// A status code and a body, ready for the transport.
#[derive(Debug, Clone, PartialEq, Eq)]
pub struct HttpResponse {
    pub status: u16,
    pub body: String,
}

pub ghost enum DetailModel {
    Bare(Seq<char>),
    Message(Seq<char>),
}

pub ghost enum ErrorModel {
    Unauthorized(DetailModel),
    NotFound(DetailModel),
    UnprocessableEntity(Seq<(Seq<char>, Seq<char>)>),
    InternalServerError,
}

/// Field and message of each violation, in order.
pub open spec fn field_texts(errors: Seq<FieldError>) -> Seq<(Seq<char>, Seq<char>)> {
    errors.map_values(|e: FieldError| (e.field@, e.message@))
}

pub open spec fn spec_field_json(e: (Seq<char>, Seq<char>)) -> Seq<char> {
    "{\"field\":"@ + json_string_text(e.0) + ",\"message\":"@ + json_string_text(e.1) + "}"@
}

impl View for Detail {
    type V = DetailModel;

    open spec fn view(&self) -> DetailModel {
        match self {
            Detail::Bare(s) => DetailModel::Bare(s@),
            Detail::Message(s) => DetailModel::Message(s@),
        }
    }
}

impl View for Error {
    type V = ErrorModel;

    open spec fn view(&self) -> ErrorModel {
        match self {
            Error::Unauthorized(d) => ErrorModel::Unauthorized(d@),
            Error::NotFound(d) => ErrorModel::NotFound(d@),
            Error::UnprocessableEntity(v) => ErrorModel::UnprocessableEntity(field_texts(v@)),
            Error::InternalServerError => ErrorModel::InternalServerError,
        }
    }
}

impl DetailModel {
    pub open spec fn body(self) -> Seq<char> {
        match self {
            DetailModel::Bare(s) => json_string_text(s),
            DetailModel::Message(s) => "{\"error\":"@ + json_string_text(s) + "}"@,
        }
    }
}

impl ErrorModel {
    pub open spec fn status(self) -> u16 {
        match self {
            ErrorModel::Unauthorized(_) => 401,
            ErrorModel::NotFound(_) => 404,
            ErrorModel::UnprocessableEntity(_) => 422,
            ErrorModel::InternalServerError => 500,
        }
    }

    pub open spec fn body(self) -> Seq<char> {
        match self {
            ErrorModel::Unauthorized(d) => d.body(),
            ErrorModel::NotFound(d) => d.body(),
            ErrorModel::UnprocessableEntity(v) => "{\"errors\":"@ + spec_array(
                v.map_values(|e: (Seq<char>, Seq<char>)| spec_field_json(e)),
            ) + "}"@,
            ErrorModel::InternalServerError => json_string_text("Internal Server Error"@),
        }
    }
}

impl FieldError {
    pub fn new(field: &str, message: &str) -> (r: Self)
        ensures
            r.field@ == field@,
            r.message@ == message@,
    {
        FieldError { field: String::from_str(field), message: String::from_str(message) }
    }

    pub fn to_json(&self) -> (r: String)
        ensures
            r@ == spec_field_json((self.field@, self.message@)),
    {
        let mut out = String::from_str("{\"field\":");
        out.append(quote(self.field.as_str()).as_str());
        out.append(",\"message\":");
        out.append(quote(self.message.as_str()).as_str());
        out.append("}");
        out
    }
}

impl Detail {
    pub fn body(&self) -> (r: String)
        ensures
            r@ == self@.body(),
    {
        match self {
            Detail::Bare(s) => quote(s.as_str()),
            Detail::Message(s) => {
                let mut out = String::from_str("{\"error\":");
                out.append(quote(s.as_str()).as_str());
                out.append("}");
                out
            },
        }
    }
}

impl Error {
    /// The HTTP status that goes with the failure.
    pub fn status_code(&self) -> (r: u16)
        ensures
            r == self@.status(),
    {
        match self {
            Error::Unauthorized(_) => 401,
            Error::NotFound(_) => 404,
            Error::UnprocessableEntity(_) => 422,
            Error::InternalServerError => 500,
        }
    }

    /// The JSON text sent with the failure.
    pub fn body(&self) -> (r: String)
        ensures
            r@ == self@.body(),
    {
        match self {
            Error::Unauthorized(d) => d.body(),
            Error::NotFound(d) => d.body(),
            Error::UnprocessableEntity(v) => {
                let mut rendered: Vec<String> = Vec::new();
                let mut i: usize = 0;
                while i < v.len()
                    invariant
                        i <= v.len(),
                        rendered@.len() == i,
                        forall|j: int|
                            0 <= j < i ==> (#[trigger] rendered@[j])@ == spec_field_json(
                                field_texts(v@)[j],
                            ),
                    decreases v.len() - i,
                {
                    rendered.push(v[i].to_json());
                    i = i + 1;
                }
                proof {
                    assert(texts(rendered@) =~= field_texts(v@).map_values(
                        |e: (Seq<char>, Seq<char>)| spec_field_json(e),
                    ));
                }
                let mut out = String::from_str("{\"errors\":");
                out.append(array(&rendered).as_str());
                out.append("}");
                out
            },
            Error::InternalServerError => quote("Internal Server Error"),
        }
    }

    /// The reply that reports the failure: its status and its body.
    pub fn error_response(&self) -> (r: HttpResponse)
        ensures
            r.status == self@.status(),
            r.body@ == self@.body(),
    {
        HttpResponse { status: self.status_code(), body: self.body() }
    }

    /// The failure as one line: its kind, then its body.
    pub fn message(&self) -> (r: String)
        ensures
            r@ == self@.kind_text() + ": "@ + self@.body(),
    {
        let mut out = match self {
            Error::Unauthorized(_) => String::from_str("Unauthorized"),
            Error::NotFound(_) => String::from_str("Not Found"),
            Error::UnprocessableEntity(_) => String::from_str("Unprocessable Entity"),
            Error::InternalServerError => String::from_str("Internal Server Error"),
        };
        out.append(": ");
        out.append(self.body().as_str());
        out
    }
}

impl ErrorModel {
    pub open spec fn kind_text(self) -> Seq<char> {
        match self {
            ErrorModel::Unauthorized(_) => "Unauthorized"@,
            ErrorModel::NotFound(_) => "Not Found"@,
            ErrorModel::UnprocessableEntity(_) => "Unprocessable Entity"@,
            ErrorModel::InternalServerError => "Internal Server Error"@,
        }
    }
}

impl HttpResponse {
    /// A successful reply carrying `body`.
    pub fn ok(body: String) -> (r: Self)
        ensures
            r.status == 200,
            r.body == body,
    {
        HttpResponse { status: 200, body }
    }

    pub fn status(&self) -> (r: u16)
        ensures
            r == self.status,
    {
        self.status
    }

    pub fn body(&self) -> (r: &str)
        ensures
            r@ == self.body@,
    {
        self.body.as_str()
    }
}

} // verus!
