use vstd::prelude::*;
use vstd::string::*;

verus! {

/// Number of input features of a queue-metrics record.
pub const NUM_FEATURES: usize = 4;

/// Number of status classes the model scores.
pub const NUM_CLASSES: usize = 3;

/// The pair returned to a client: the label it sent and the predicted class.
#[derive(Clone, Copy, Debug, PartialEq, Eq, Structural)]
pub struct InferenceResponse {
    pub expected: usize,
    pub predicted: usize,
}

/// Where a request goes.
#[derive(Clone, Copy, Debug, PartialEq, Eq, Structural)]
pub enum Route {
    Inference,
    NotFound,
}

/// What the server answers to one request.
#[derive(Clone, Copy, Debug, PartialEq, Eq, Structural)]
pub enum Outcome {
    Predicted(InferenceResponse),
    BadRequest,
    NotFound,
    InternalError,
}

pub open spec fn is_inference_route(method: Seq<char>, path: Seq<char>) -> bool {
    method == "POST"@ && path == "/inference"@
}

/// `i` is the position of the largest score, and no earlier score equals it.
pub open spec fn is_first_max(s: Seq<u64>, i: int) -> bool {
    &&& 0 <= i < s.len()
    &&& forall|j: int| 0 <= j < s.len() ==> s[j] <= s[i]
    &&& forall|j: int| 0 <= j < i ==> s[j] < s[i]
}

pub open spec fn first_max_index(s: Seq<u64>) -> int {
    choose|i: int| is_first_max(s, i)
}

/// The answer owed to a request, given the decoded label (if the body
/// decoded) and the evaluator's scores (if evaluation succeeded).
pub open spec fn outcome_of(
    method: Seq<char>,
    path: Seq<char>,
    label: Option<usize>,
    scores: Option<Seq<u64>>,
) -> Outcome {
    if !is_inference_route(method, path) {
        Outcome::NotFound
    } else {
        match label {
            None => Outcome::BadRequest,
            Some(l) => match scores {
                Some(s) if s.len() == NUM_CLASSES => Outcome::Predicted(
                    InferenceResponse { expected: l, predicted: first_max_index(s) as usize },
                ),
                _ => Outcome::InternalError,
            },
        }
    }
}

pub open spec fn status_of(o: Outcome) -> u16 {
    match o {
        Outcome::Predicted(_) => 200,
        Outcome::BadRequest => 400,
        Outcome::NotFound => 404,
        Outcome::InternalError => 500,
    }
}

pub open spec fn body_of(o: Outcome) -> Option<InferenceResponse> {
    match o {
        Outcome::Predicted(r) => Some(r),
        _ => None,
    }
}

impl Outcome {
    /// The HTTP status code of this outcome.
    pub fn status(&self) -> (r: u16)
        ensures
            r == status_of(*self),
    {
        match self {
            Outcome::Predicted(_) => 200,
            Outcome::BadRequest => 400,
            Outcome::NotFound => 404,
            Outcome::InternalError => 500,
        }
    }

    /// The response pair to encode as the body; `None` for an empty body.
    pub fn body(&self) -> (r: Option<InferenceResponse>)
        ensures
            r == body_of(*self),
    {
        match self {
            Outcome::Predicted(r) => Some(*r),
            _ => None,
        }
    }
}

proof fn lemma_first_max_unique(s: Seq<u64>, i: int, k: int)
    requires
        is_first_max(s, i),
        is_first_max(s, k),
    ensures
        i == k,
{
    if i < k {
        assert(s[i] < s[k]);
        assert(s[k] <= s[i]);
    } else if k < i {
        assert(s[k] < s[i]);
        assert(s[i] <= s[k]);
    }
}

proof fn lemma_first_max_exists(s: Seq<u64>)
    requires
        s.len() > 0,
    ensures
        is_first_max(s, first_max_index(s)),
    decreases s.len(),
{
    if s.len() == 1 {
        assert(is_first_max(s, 0));
    } else {
        let t = s.drop_last();
        lemma_first_max_exists(t);
        let k = first_max_index(t);
        let last = s.len() - 1;
        assert(forall|j: int| 0 <= j < last ==> t[j] == s[j]);
        if s[last] > t[k] {
            assert(is_first_max(s, last));
        } else {
            assert(is_first_max(s, k));
        }
    }
}

/// Every well-formed inference request answered with a full score vector
/// yields exactly one class index in range, and echoes the label it carried.
pub proof fn lemma_dispatch_predicts_one_class(
    method: Seq<char>,
    path: Seq<char>,
    label: usize,
    scores: Seq<u64>,
)
    requires
        is_inference_route(method, path),
        scores.len() == NUM_CLASSES,
    ensures
        outcome_of(method, path, Some(label), Some(scores)) matches Outcome::Predicted(r) && r.expected
            == label && r.predicted < NUM_CLASSES && is_first_max(scores, r.predicted as int),
        status_of(outcome_of(method, path, Some(label), Some(scores))) == 200,
{
    lemma_first_max_exists(scores);
}

/// When two classes share the largest score, the lower of the two indices
/// is predicted.
pub proof fn lemma_tie_goes_to_lower_index(scores: Seq<u64>, i: int, k: int)
    requires
        0 <= i < k < scores.len(),
        scores[i] == scores[k],
        forall|j: int| 0 <= j < scores.len() ==> scores[j] <= scores[i],
    ensures
        first_max_index(scores) <= i,
        first_max_index(scores) != k,
{
    lemma_first_max_exists(scores);
}

/// A body that did not decode on the inference route is answered with a
/// client error and no body, whatever the evaluator would have said.
pub proof fn lemma_malformed_body_is_client_error(
    method: Seq<char>,
    path: Seq<char>,
    scores: Option<Seq<u64>>,
)
    requires
        is_inference_route(method, path),
    ensures
        400 <= status_of(outcome_of(method, path, None, scores)) < 500,
        body_of(outcome_of(method, path, None, scores)) is None,
{
}

/// Every method and path other than `POST /inference` is answered with
/// 404 and an empty body.
pub proof fn lemma_unknown_route_is_not_found(
    method: Seq<char>,
    path: Seq<char>,
    label: Option<usize>,
    scores: Option<Seq<u64>>,
)
    requires
        !is_inference_route(method, path),
    ensures
        status_of(outcome_of(method, path, label, scores)) == 404,
        body_of(outcome_of(method, path, label, scores)) is None,
{
}

/// The application protocols offered during the TLS handshake, most
/// preferred first: HTTP/2, then HTTP/1.1, then HTTP/1.0.
pub open spec fn alpn_spec() -> Seq<Seq<u8>> {
    seq![
        seq![104u8, 50u8],
        seq![104u8, 116u8, 116u8, 112u8, 47u8, 49u8, 46u8, 49u8],
        seq![104u8, 116u8, 116u8, 112u8, 47u8, 49u8, 46u8, 48u8],
    ]
}

/// The ALPN list for the TLS acceptor: `h2`, `http/1.1`, `http/1.0`.
pub fn alpn_protocols() -> (r: Vec<Vec<u8>>)
    ensures
        r@.len() == alpn_spec().len(),
        forall|i: int| 0 <= i < r@.len() ==> r@[i]@ == alpn_spec()[i],
{
    let h2: Vec<u8> = vec![104u8, 50u8];
    let h11: Vec<u8> = vec![104u8, 116u8, 116u8, 112u8, 47u8, 49u8, 46u8, 49u8];
    let h10: Vec<u8> = vec![104u8, 116u8, 116u8, 112u8, 47u8, 49u8, 46u8, 48u8];
    let r = vec![h2, h11, h10];
    assert(r@[0]@ =~= alpn_spec()[0]);
    assert(r@[1]@ =~= alpn_spec()[1]);
    assert(r@[2]@ =~= alpn_spec()[2]);
    r
}

/// The order key of an IEEE-754 single-precision score given by its bits:
/// negative scores (sign bit set) map below every non-negative one, with
/// larger magnitudes lower; non-negative scores keep the order of their
/// bits. For values that are not NaN this is the order of the scores.
pub open spec fn score_key_spec(bits: u32) -> u64 {
    if bits >= 0x8000_0000 {
        (0xFFFF_FFFFu32 - bits) as u64
    } else {
        (bits as u64 + 0x8000_0000) as u64
    }
}

/// Maps a score's bits to its order key, so that scores compare as
/// unsigned integers.
pub fn score_key(bits: u32) -> (r: u64)
    ensures
        r == score_key_spec(bits),
{
    if bits >= 0x8000_0000 {
        (0xFFFF_FFFFu32 - bits) as u64
    } else {
        bits as u64 + 0x8000_0000
    }
}

/// Key order agrees with sign-magnitude order: every negative score is
/// below every non-negative one, non-negative scores order by magnitude,
/// and negative scores by reverse magnitude.
pub proof fn lemma_score_key_order(a: u32, b: u32)
    ensures
        a < 0x8000_0000 && b < 0x8000_0000 ==> (score_key_spec(a) < score_key_spec(b) <==> a < b),
        a >= 0x8000_0000 && b >= 0x8000_0000 ==> (score_key_spec(a) < score_key_spec(b) <==> b < a),
        a >= 0x8000_0000 && b < 0x8000_0000 ==> score_key_spec(a) < score_key_spec(b),
        score_key_spec(a) == score_key_spec(b) <==> a == b,
{
}

/// Character-wise equality of two strings.
pub(crate) fn str_equals(a: &str, b: &str) -> (r: bool)
    ensures
        r == (a@ == b@),
{
    let n = a.unicode_len();
    if n != b.unicode_len() {
        return false;
    }
    let mut i: usize = 0;
    while i < n
        invariant
            n == a@.len(),
            n == b@.len(),
            0 <= i <= n,
            forall|j: int| 0 <= j < i ==> a@[j] == b@[j],
        decreases n - i,
    {
        if a.get_char(i) != b.get_char(i) {
            return false;
        }
        i = i + 1;
    }
    assert(a@ =~= b@);
    true
}

/// Maps a request's method and path to its route: only `POST /inference`
/// is served, everything else is not found.
pub fn route(method: &str, path: &str) -> (r: Route)
    ensures
        r == (if is_inference_route(method@, path@) {
            Route::Inference
        } else {
            Route::NotFound
        }),
{
    proof {
        reveal_strlit("POST");
        reveal_strlit("/inference");
    }
    if str_equals(method, "POST") && str_equals(path, "/inference") {
        Route::Inference
    } else {
        Route::NotFound
    }
}

/// Index and value of the largest score; on a tie the lowest index wins,
/// since only a strictly greater score moves the selection.
pub fn find_max_index(input: &Vec<u64>) -> (r: (usize, u64))
    requires
        input@.len() > 0,
    ensures
        is_first_max(input@, r.0 as int),
        r.1 == input@[r.0 as int],
        r.0 as int == first_max_index(input@),
{
    let mut max_index: usize = 0;
    let mut max: u64 = input[0];
    let mut index: usize = 1;
    while index < input.len()
        invariant
            1 <= index <= input@.len(),
            max_index < index,
            max == input@[max_index as int],
            forall|j: int| 0 <= j < index ==> input@[j] <= max,
            forall|j: int| 0 <= j < max_index ==> input@[j] < max,
        decreases input@.len() - index,
    {
        if input[index] > max {
            max_index = index;
            max = input[index];
        }
        index = index + 1;
    }
    proof {
        assert(is_first_max(input@, max_index as int));
        let k = first_max_index(input@);
        lemma_first_max_unique(input@, k, max_index as int);
    }
    (max_index, max)
}

/// Decides the answer to one request. `label` is the decoded record's label
/// as a class index, `None` when the body did not decode; `scores` are the
/// evaluator's per-class scores as order-preserving keys, `None` when the
/// evaluation failed.
pub fn handle(method: &str, path: &str, label: Option<usize>, scores: Option<&Vec<u64>>) -> (r:
    Outcome)
    ensures
        r == outcome_of(
            method@,
            path@,
            label,
            match scores {
                Some(s) => Some(s@),
                None => None,
            },
        ),
{
    match route(method, path) {
        Route::NotFound => Outcome::NotFound,
        Route::Inference => match label {
            None => Outcome::BadRequest,
            Some(l) => match scores {
                Some(s) => {
                    if s.len() == NUM_CLASSES {
                        let (predicted, _) = find_max_index(s);
                        assert(predicted < NUM_CLASSES);
                        Outcome::Predicted(InferenceResponse { expected: l, predicted })
                    } else {
                        Outcome::InternalError
                    }
                },
                None => Outcome::InternalError,
            },
        },
    }
}

} // verus!
