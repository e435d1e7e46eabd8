//! The reply of the service's HTTP API: a status code, an optional message
//! and optional data.
use vstd::prelude::*;

verus! {

/// A reply of the HTTP API.
#[derive(Debug, Clone)]
pub struct ApiResult<T> {
    pub code: i32,
    pub msg: Option<String>,
    pub data: Option<T>,
}

/// The reply to an error, which carries no data.
pub type ApiError = ApiResult<()>;

/// A reply given either by reference or by value.
pub enum ApiRt<L, R> {
    Ref(L),
    T(R),
}

impl<T> ApiResult<T> {
    /// A successful reply: code 200, no message, no data.
    pub fn new() -> (r: Self)
        ensures
            r.code == 200,
            r.msg is None,
            r.data is None,
    {
        ApiResult { code: 200, msg: None, data: None }
    }

    /// The same reply with another code.
    pub fn code(self, code: i32) -> (r: Self)
        ensures
            r.code == code,
            r.msg == self.msg,
            r.data == self.data,
    {
        ApiResult { code, ..self }
    }

    /// The same reply with a message.
    pub fn with_msg(self, msg: String) -> (r: Self)
        ensures
            r.code == self.code,
            r.msg == Some(msg),
            r.data == self.data,
    {
        ApiResult { msg: Some(msg), ..self }
    }

    /// The message, or the empty string when there is none.
    pub fn msg_as_str(&self) -> (r: &str)
        ensures
            r@ == (match self.msg {
                Some(m) => m@,
                None => Seq::<char>::empty(),
            }),
    {
        match &self.msg {
            Some(m) => m.as_str(),
            None => {
                proof {
                    reveal_strlit("");
                }
                ""
            },
        }
    }

    /// The same reply with data.
    pub fn with_data(self, data: T) -> (r: Self)
        ensures
            r.code == self.code,
            r.msg == self.msg,
            r.data == Some(data),
    {
        ApiResult { data: Some(data), ..self }
    }
}

/// The reply to a request that failed to parse: code 400 with the error's text.
pub fn json_error_result(detail: String) -> (r: ApiError)
    ensures
        r.code == 400,
        r.msg == Some(detail),
        r.data == Some(()),
{
    ApiResult::new().with_data(()).code(400).with_msg(detail)
}

/// The reply to an unknown route: code 404, "route not found".
pub fn not_found_result() -> (r: ApiError)
    ensures
        r.code == 404,
        r.msg matches Some(m) && m@ == "route not found"@,
        r.data == Some(()),
{
    let m = crate::text::string_from_chars(&crate::text::chars_of("route not found"));
    ApiResult::new().with_data(()).code(404).with_msg(m)
}

/// The reply to a stop request: code 400, "exit success ".
pub fn exit_result() -> (r: ApiResult<i32>)
    ensures
        r.code == 400,
        r.msg matches Some(m) && m@ == "exit success "@,
        r.data is None,
{
    let m = crate::text::string_from_chars(&crate::text::chars_of("exit success "));
    ApiResult::new().code(400).with_msg(m)
}

} // verus!
