//! The provider's callback, parsed from the query string.
use vstd::prelude::*;

use crate::error::{AuthError, AuthErrorView};
use crate::secret::SecretString;
use crate::text;

verus! {

/// The provider's callback.
#[derive(Debug)]
pub enum CallbackParams {
    Success { code: SecretString, state: SecretString },
    /// An RFC 6749 section 4.1.2.1 error response, most commonly `access_denied`, which is simply
    /// the user declining consent.
    Failure { error: String, description: Option<String> },
}

/// What [`CallbackParams`] say.
pub ghost enum CallbackView {
    Success { code: Seq<char>, state: Seq<char> },
    Failure { error: Seq<char>, description: Option<Seq<char>> },
}

impl View for CallbackParams {
    type V = CallbackView;

    open spec fn view(&self) -> CallbackView {
        match *self {
            CallbackParams::Success { code, state } => CallbackView::Success {
                code: code@,
                state: state@,
            },
            CallbackParams::Failure { error, description } => CallbackView::Failure {
                error: error@,
                description: text::optional(description),
            },
        }
    }
}

/// The names and values in a form-encoded query.
pub uninterp spec fn form_decoded(query: Seq<char>) -> Seq<(Seq<char>, Seq<char>)>;

/// `url::form_urlencoded::parse`: the names and values in order, with `+` and percent escapes
/// decoded. Which pairs a query holds is left to [`form_decoded`].
#[verifier::external_body]
fn decode_form(query: &str) -> (pairs: Vec<(String, String)>)
    ensures
        text::pair_texts(pairs@) == form_decoded(query@),
{
    url::form_urlencoded::parse(query.as_bytes()).into_owned().collect()
}

/// The value of the last pair named `name`.
pub open spec fn last_value(pairs: Seq<(Seq<char>, Seq<char>)>, name: Seq<char>) -> Option<
    Seq<char>,
>
    decreases pairs.len(),
{
    if pairs.len() == 0 {
        None
    } else if pairs.last().0 == name {
        Some(pairs.last().1)
    } else {
        last_value(pairs.drop_last(), name)
    }
}

/// What the pairs of a callback say. An error outweighs everything else; without one, a callback
/// needs both a code and a state.
pub open spec fn callback_in(pairs: Seq<(Seq<char>, Seq<char>)>) -> Result<
    CallbackView,
    AuthErrorView,
> {
    match last_value(pairs, "error"@) {
        Some(error) => Ok(
            CallbackView::Failure {
                error,
                description: last_value(pairs, "error_description"@),
            },
        ),
        None => match (last_value(pairs, "code"@), last_value(pairs, "state"@)) {
            (Some(code), Some(state)) => Ok(CallbackView::Success { code, state }),
            _ => Err(
                AuthErrorView::MalformedCredential {
                    detail: "callback carried neither an authorization code nor an error"@,
                },
            ),
        },
    }
}

/// The callback or the failure in a result.
pub open spec fn callback_result(result: Result<CallbackParams, AuthError>) -> Result<
    CallbackView,
    AuthErrorView,
> {
    match result {
        Ok(params) => Ok(params@),
        Err(error) => Err(error@),
    }
}

/// A copy of the value of the last pair named `name`.
fn find_last(pairs: &Vec<(String, String)>, name: &str) -> (value: Option<String>)
    ensures
        text::optional(value) == last_value(text::pair_texts(pairs@), name@),
{
    let ghost all = text::pair_texts(pairs@);
    let mut left: usize = pairs.len();
    assert(all.subrange(0, left as int) =~= all);
    while left > 0
        invariant
            left <= pairs.len(),
            all == text::pair_texts(pairs@),
            last_value(all.subrange(0, left as int), name@) == last_value(all, name@),
        decreases left,
    {
        let ghost head = all.subrange(0, left as int);
        let pair = &pairs[left - 1];
        assert(head.last() == (pair.0@, pair.1@));
        assert(head.drop_last() =~= all.subrange(0, left - 1));
        if text::equal(pair.0.as_str(), name) {
            return Some(pair.1.clone());
        }
        left -= 1;
    }
    None
}

impl CallbackParams {
    /// Parses a callback query string (without the leading `?`).
    pub fn from_query(query: &str) -> (result: Result<CallbackParams, AuthError>)
        ensures
            callback_result(result) == callback_in(form_decoded(query@)),
    {
        CallbackParams::from_pairs(&decode_form(query))
    }

    /// Reads the decoded names and values of a callback. Of a name that repeats, the last value
    /// counts.
    pub fn from_pairs(pairs: &Vec<(String, String)>) -> (result: Result<CallbackParams, AuthError>)
        ensures
            callback_result(result) == callback_in(text::pair_texts(pairs@)),
    {
        if let Some(error) = find_last(pairs, "error") {
            return Ok(
                CallbackParams::Failure {
                    error,
                    description: find_last(pairs, "error_description"),
                },
            );
        }
        match (find_last(pairs, "code"), find_last(pairs, "state")) {
            (Some(code), Some(state)) => Ok(
                CallbackParams::Success {
                    code: SecretString::from(code),
                    state: SecretString::from(state),
                },
            ),
            _ => Err(
                AuthError::malformed_credential(
                    "callback carried neither an authorization code nor an error",
                ),
            ),
        }
    }
}

proof fn lemma_last_value(pairs: Seq<(Seq<char>, Seq<char>)>, name: Seq<char>, at: int)
    requires
        -1 <= at < pairs.len(),
        forall|i: int| at < i < pairs.len() ==> (#[trigger] pairs[i]).0 != name,
        at >= 0 ==> pairs[at].0 == name,
    ensures
        at >= 0 ==> last_value(pairs, name) == Some(pairs[at].1),
        at < 0 ==> last_value(pairs, name) is None,
    decreases pairs.len(),
{
    if pairs.len() > 0 && at < pairs.len() - 1 {
        let front = pairs.drop_last();
        assert(pairs.last() == pairs[pairs.len() - 1]);
        assert forall|i: int| at < i < front.len() implies (#[trigger] front[i]).0 != name by {
            assert(front[i] == pairs[i]);
        }
        lemma_last_value(front, name, at);
    }
}

/// Whether `value` is the value of the last pair of that name, when there is one.
pub open spec fn is_last_value(
    pairs: Vec<(String, String)>,
    name: Seq<char>,
    value: Option<Seq<char>>,
) -> bool {
    match value {
        Some(value) => exists|at: int|
            0 <= at < pairs.len() && (#[trigger] pairs@[at]).0@ == name && pairs@[at].1@ == value
                && forall|i: int| at < i < pairs.len() ==> (#[trigger] pairs@[i]).0@ != name,
        None => forall|i: int| 0 <= i < pairs.len() ==> (#[trigger] pairs@[i]).0@ != name,
    }
}

proof fn lemma_is_last_value(
    pairs: Vec<(String, String)>,
    name: Seq<char>,
    value: Option<Seq<char>>,
)
    requires
        is_last_value(pairs, name, value),
    ensures
        last_value(text::pair_texts(pairs@), name) == value,
{
    let all = text::pair_texts(pairs@);
    let at = match value {
        Some(value) => choose|at: int|
            0 <= at < pairs.len() && (#[trigger] pairs@[at]).0@ == name && pairs@[at].1@ == value
                && forall|i: int| at < i < pairs.len() ==> (#[trigger] pairs@[i]).0@ != name,
        None => -1,
    };
    assert forall|i: int| at < i < all.len() implies (#[trigger] all[i]).0 != name by {
        assert(pairs@[i].0@ != name);
    }
    lemma_last_value(all, name, at);
}

/// A callback is what its parameters say: the provider's error where there is one, with its
/// description, whatever else is there; else the code and the state, each from the parameter of
/// its own name. With one of them missing it is malformed.
pub proof fn callback_says_what_its_parameters_say(
    pairs: Vec<(String, String)>,
    result: Result<CallbackParams, AuthError>,
    error: Option<Seq<char>>,
    description: Option<Seq<char>>,
    code: Option<Seq<char>>,
    state: Option<Seq<char>>,
)
    requires
        call_ensures(CallbackParams::from_pairs, (&pairs,), result),
        is_last_value(pairs, "error"@, error),
        is_last_value(pairs, "error_description"@, description),
        is_last_value(pairs, "code"@, code),
        is_last_value(pairs, "state"@, state),
    ensures
        error is Some ==> result is Ok && result->Ok_0@ == (CallbackView::Failure {
            error: error->Some_0,
            description,
        }),
        error is None && code is Some && state is Some ==> result is Ok && result->Ok_0@ == (
        CallbackView::Success { code: code->Some_0, state: state->Some_0 }),
        error is None && (code is None || state is None) ==> result is Err
            && result->Err_0@.status() == 400,
{
    lemma_is_last_value(pairs, "error"@, error);
    lemma_is_last_value(pairs, "error_description"@, description);
    lemma_is_last_value(pairs, "code"@, code);
    lemma_is_last_value(pairs, "state"@, state);
}

/// A callback's query is read by its decoded parameters alone.
pub proof fn query_is_read_by_its_parameters(
    query: &str,
    result: Result<CallbackParams, AuthError>,
    pairs: Vec<(String, String)>,
    read: Result<CallbackParams, AuthError>,
)
    requires
        call_ensures(CallbackParams::from_query, (query,), result),
        call_ensures(CallbackParams::from_pairs, (&pairs,), read),
        text::pair_texts(pairs@) == form_decoded(query@),
    ensures
        callback_result(result) == callback_result(read),
{
}

} // verus!
