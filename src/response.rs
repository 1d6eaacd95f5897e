use vstd::prelude::*;
use vstd::string::*;

verus! {

#[verifier::external_type_specification]
#[verifier::external_body]
#[verifier::reject_recursive_types(T)]
pub struct ExHeaderMap<T>(http::HeaderMap<T>);

#[verifier::external_type_specification]
#[verifier::external_body]
pub struct ExHeaderValue(http::HeaderValue);

/// What a header map holds: the first value stored under each header name,
/// keyed by the name in lower case.
pub uninterp spec fn header_first_values(h: http::HeaderMap) -> Map<Seq<char>, Seq<u8>>;

/// Header that the expected upstream server puts on every response.
pub const UPSTREAM_HEADER_NAME: &'static str = "x-super-fast-large-data-server";

/// Value of `UPSTREAM_HEADER_NAME` on a response of the expected upstream.
pub const UPSTREAM_HEADER_VALUE: &'static str = "true";

pub const CONTENT_TYPE_HEADER: &'static str = "content-type";

/// Content type of the fixture served over the serialized protocol.
pub const EXPECTED_CONTENT_TYPE: &'static str = "application/wasm";

/// Body length of the fixture served over the serialized protocol.
pub const EXPECTED_BODY_SIZE: usize = 1069320;

/// A header name as the map stores it: lower-case letters, digits and dashes.
pub open spec fn is_lower_header_name(name: Seq<char>) -> bool {
    &&& name.len() > 0
    &&& forall|i: int|
        0 <= i < name.len() ==> ('a' <= #[trigger] name[i] <= 'z' || '0' <= name[i] <= '9'
            || name[i] == '-')
}

/// The first value of header `name` in `h`, if it has one.
pub open spec fn header_lookup(h: http::HeaderMap, name: Seq<char>) -> Option<Seq<u8>> {
    if header_first_values(h).contains_key(name) {
        Some(header_first_values(h)[name])
    } else {
        None
    }
}

/// Relies on `http::HeaderMap::get`, which for a name in lower case returns the
/// first value stored under it, and on `HeaderValue::as_bytes` for its bytes.
#[verifier::external_body]
fn first_header_value(headers: &http::HeaderMap, name: &str) -> (r: Option<Vec<u8>>)
    requires
        is_lower_header_name(name@),
    ensures
        r is Some <==> header_first_values(*headers).contains_key(name@),
        r is Some ==> r->0@ == header_first_values(*headers)[name@],
{
    match headers.get(name) {
        Some(v) => Some(v.as_bytes().to_vec()),
        None => None,
    }
}

/// The outcome of checking one response against the expected fixture.
#[derive(PartialEq, Eq, Structural, Debug, Clone, Copy)]
pub enum Verdict {
    Valid,
    /// The drained body does not have the expected length.
    WrongBodySize,
    /// The response has no content type.
    MissingContentType,
    /// The content type differs from the expected one.
    WrongContentType,
    /// The upstream header is missing or has another value.
    WrongUpstreamHeader,
    /// Nothing could be drained from the body.
    EmptyBody,
}

/// Verdict on a response over the serialized protocol, from its drained body
/// length and its content type: the length is checked first.
pub open spec fn serialized_verdict(size: nat, content_type: Option<Seq<u8>>) -> Verdict {
    if size != EXPECTED_BODY_SIZE {
        Verdict::WrongBodySize
    } else if content_type is None {
        Verdict::MissingContentType
    } else if content_type->0 != EXPECTED_CONTENT_TYPE.spec_bytes() {
        Verdict::WrongContentType
    } else {
        Verdict::Valid
    }
}

/// Verdict on the upstream header of a response over the multiplexed protocol.
pub open spec fn upstream_verdict(value: Option<Seq<u8>>) -> Verdict {
    if value == Some(UPSTREAM_HEADER_VALUE.spec_bytes()) {
        Verdict::Valid
    } else {
        Verdict::WrongUpstreamHeader
    }
}

/// Verdict on the drained body length of a response over the multiplexed protocol.
pub open spec fn multiplexed_body_verdict(size: nat) -> Verdict {
    if size > 0 {
        Verdict::Valid
    } else {
        Verdict::EmptyBody
    }
}

pub open spec fn opt_view(v: Option<Vec<u8>>) -> Option<Seq<u8>> {
    match v {
        Some(b) => Some(b@),
        None => None,
    }
}

fn bytes_equal(a: &[u8], b: &[u8]) -> (r: bool)
    ensures
        r == (a@ == b@),
{
    if a.len() != b.len() {
        return false;
    }
    let mut i: usize = 0;
    while i < a.len()
        invariant
            a@.len() == b@.len(),
            i <= a@.len(),
            forall|j: int| 0 <= j < i ==> a@[j] == b@[j],
        decreases a@.len() - i,
    {
        if a[i] != b[i] {
            return false;
        }
        i = i + 1;
    }
    assert(a@ =~= b@);
    true
}

/// Checks a serialized-protocol response given its content type.
pub fn check_serialized(size: usize, content_type: &Option<Vec<u8>>) -> (r: Verdict)
    ensures
        r == serialized_verdict(size as nat, opt_view(*content_type)),
{
    if size != EXPECTED_BODY_SIZE {
        return Verdict::WrongBodySize;
    }
    match content_type {
        None => Verdict::MissingContentType,
        Some(ct) => if bytes_equal(ct.as_slice(), EXPECTED_CONTENT_TYPE.as_bytes()) {
            Verdict::Valid
        } else {
            Verdict::WrongContentType
        },
    }
}

/// Checks a serialized-protocol response given its headers.
pub fn validate_serialized(size: usize, headers: &http::HeaderMap) -> (r: Verdict)
    ensures
        r == serialized_verdict(
            size as nat,
            header_lookup(*headers, CONTENT_TYPE_HEADER@),
        ),
{
    proof {
        reveal_strlit("content-type");
    }
    let content_type = first_header_value(headers, CONTENT_TYPE_HEADER);
    check_serialized(size, &content_type)
}

/// Checks the upstream header value of a multiplexed-protocol response.
pub fn check_upstream(value: &Option<Vec<u8>>) -> (r: Verdict)
    ensures
        r == upstream_verdict(opt_view(*value)),
{
    match value {
        None => Verdict::WrongUpstreamHeader,
        Some(v) => if bytes_equal(v.as_slice(), UPSTREAM_HEADER_VALUE.as_bytes()) {
            Verdict::Valid
        } else {
            Verdict::WrongUpstreamHeader
        },
    }
}

/// Checks the upstream header of a multiplexed-protocol response given its headers.
pub fn validate_upstream(headers: &http::HeaderMap) -> (r: Verdict)
    ensures
        r == upstream_verdict(header_lookup(*headers, UPSTREAM_HEADER_NAME@)),
{
    proof {
        reveal_strlit("x-super-fast-large-data-server");
    }
    let value = first_header_value(headers, UPSTREAM_HEADER_NAME);
    check_upstream(&value)
}

/// Checks the drained body length of a multiplexed-protocol response.
pub fn check_multiplexed_body(size: usize) -> (r: Verdict)
    ensures
        r == multiplexed_body_verdict(size as nat),
{
    if size > 0 {
        Verdict::Valid
    } else {
        Verdict::EmptyBody
    }
}

/// One read from a response body stream.
#[derive(PartialEq, Eq, Structural, Debug, Clone, Copy)]
pub enum Chunk {
    /// A data frame of `len` bytes.
    Data { len: usize },
    /// Reading the body failed.
    ReadError,
}

/// Running byte count of a body being drained; a read error ends the drain
/// and keeps what was counted up to it.
pub struct BodyTally {
    size: usize,
    stopped: bool,
}

/// Abstract state of a tally: bytes counted, and whether draining has ended.
pub struct TallyView {
    pub size: nat,
    pub stopped: bool,
}

impl View for BodyTally {
    type V = TallyView;

    closed spec fn view(&self) -> TallyView {
        TallyView { size: self.size as nat, stopped: self.stopped }
    }
}

/// Bytes counted from `chunks`: the lengths of the data frames before the
/// first read error.
pub open spec fn drained_size(chunks: Seq<Chunk>) -> nat
    decreases chunks.len(),
{
    if chunks.len() == 0 {
        0
    } else {
        match chunks[0] {
            Chunk::Data { len } => (len + drained_size(chunks.drop_first())) as nat,
            Chunk::ReadError => 0,
        }
    }
}

impl BodyTally {
    pub fn new() -> (r: BodyTally)
        ensures
            r@ == (TallyView { size: 0, stopped: false }),
    {
        BodyTally { size: 0, stopped: false }
    }

    pub fn size(&self) -> (r: usize)
        ensures
            r == self@.size,
    {
        self.size
    }

    /// Counts one read; returns whether to keep draining.
    pub fn on_chunk(&mut self, chunk: Chunk) -> (keep: bool)
        requires
            !old(self)@.stopped,
            chunk matches Chunk::Data { len } ==> old(self)@.size + len <= usize::MAX,
        ensures
            keep == !final(self)@.stopped,
            final(self)@ == match chunk {
                Chunk::Data { len } => TallyView { size: (old(self)@.size + len) as nat, stopped: false },
                Chunk::ReadError => TallyView { size: old(self)@.size, stopped: true },
            },
    {
        match chunk {
            Chunk::Data { len } => {
                self.size = self.size + len;
                true
            },
            Chunk::ReadError => {
                self.stopped = true;
                false
            },
        }
    }
}

/// Fed one read at a time, a tally counts exactly the bytes of the data frames
/// before the first read error, and stops at that error.
pub proof fn tally_counts_until_error(prefix: Seq<Chunk>, c: Chunk, before: TallyView, after: TallyView)
    requires
        !before.stopped,
        before.size == drained_size(prefix),
        forall|i: int| 0 <= i < prefix.len() ==> #[trigger] prefix[i] is Data,
        after == (match c {
            Chunk::Data { len } => TallyView { size: (before.size + len) as nat, stopped: false },
            Chunk::ReadError => TallyView { size: before.size, stopped: true },
        }),
    ensures
        after.size == drained_size(prefix.push(c)),
        after.stopped <==> c is ReadError,
    decreases prefix.len(),
{
    if prefix.len() > 0 {
        let rest = prefix.drop_first();
        assert(prefix.push(c).drop_first() =~= rest.push(c));
        assert(prefix[0] is Data);
        let inner = TallyView { size: drained_size(rest), stopped: false };
        let inner_after = match c {
            Chunk::Data { len } => TallyView { size: (inner.size + len) as nat, stopped: false },
            Chunk::ReadError => TallyView { size: inner.size, stopped: true },
        };
        assert forall|i: int| 0 <= i < rest.len() implies #[trigger] rest[i] is Data by {
            assert(rest[i] == prefix[i + 1]);
        }
        tally_counts_until_error(rest, c, inner, inner_after);
        assert(prefix.push(c)[0] == prefix[0]);
        let len0 = prefix[0]->len;
        assert(drained_size(prefix) == len0 + drained_size(rest));
        assert(drained_size(prefix.push(c)) == len0 + drained_size(rest.push(c)));
    } else {
        assert(prefix.push(c).drop_first() =~= Seq::<Chunk>::empty());
        assert(prefix.push(c)[0] == c);
        assert(drained_size(prefix.push(c).drop_first()) == 0);
    }
}

/// A serialized-protocol response passes exactly when its body has the
/// fixture's length and its content type is the fixture's.
pub proof fn serialized_valid_means_fixture(size: nat, content_type: Option<Seq<u8>>)
    ensures
        serialized_verdict(size, content_type) == Verdict::Valid <==> size == EXPECTED_BODY_SIZE
            && content_type == Some(EXPECTED_CONTENT_TYPE.spec_bytes()),
{
}

/// A multiplexed-protocol response passes both checks exactly when it carries
/// the upstream header with the expected value and a nonempty body.
pub proof fn multiplexed_valid_means_upstream(value: Option<Seq<u8>>, size: nat)
    ensures
        (upstream_verdict(value) == Verdict::Valid && multiplexed_body_verdict(size)
            == Verdict::Valid) <==> value == Some(UPSTREAM_HEADER_VALUE.spec_bytes()) && size > 0,
{
}

} // verus!
