use vstd::prelude::*;

use crate::bytes::append_bytes;

verus! {

/// One HTTP/3 header field.
pub struct Header {
    pub name: Vec<u8>,
    pub value: Vec<u8>,
}

/// What a request asks of the server once its headers are read.
pub enum ResponsePlan {
    /// Answer with the contents of the file at `path`.
    ServeFile { path: Vec<u8> },
    /// The request is not a `GET`: answer 405.
    MethodNotAllowed,
}

pub open spec fn header_view(h: Header) -> (Seq<u8>, Seq<u8>) {
    (h.name@, h.value@)
}

/// `:path`
pub open spec fn path_header() -> Seq<u8> {
    seq![0x3au8, 0x70u8, 0x61u8, 0x74u8, 0x68u8]
}

/// `:method`
pub open spec fn method_header() -> Seq<u8> {
    seq![0x3au8, 0x6du8, 0x65u8, 0x74u8, 0x68u8, 0x6fu8, 0x64u8]
}

/// `GET`
pub open spec fn get_method() -> Seq<u8> {
    seq![0x47u8, 0x45u8, 0x54u8]
}

/// `:status`
pub open spec fn status_header() -> Seq<u8> {
    seq![0x3au8, 0x73u8, 0x74u8, 0x61u8, 0x74u8, 0x75u8, 0x73u8]
}

/// `server`
pub open spec fn server_header() -> Seq<u8> {
    seq![0x73u8, 0x65u8, 0x72u8, 0x76u8, 0x65u8, 0x72u8]
}

/// `quiche`
pub open spec fn server_name() -> Seq<u8> {
    seq![0x71u8, 0x75u8, 0x69u8, 0x63u8, 0x68u8, 0x65u8]
}

/// `content-length`
pub open spec fn content_length_header() -> Seq<u8> {
    seq![
        0x63u8, 0x6fu8, 0x6eu8, 0x74u8, 0x65u8, 0x6eu8, 0x74u8, 0x2du8,
        0x6cu8, 0x65u8, 0x6eu8, 0x67u8, 0x74u8, 0x68u8,
    ]
}

/// `Not Found!`
pub open spec fn not_found_body() -> Seq<u8> {
    seq![0x4eu8, 0x6fu8, 0x74u8, 0x20u8, 0x46u8, 0x6fu8, 0x75u8, 0x6eu8, 0x64u8, 0x21u8]
}

/// The value of the last header called `name`, if any.
pub open spec fn last_header_value(headers: Seq<Header>, name: Seq<u8>) -> Option<Seq<u8>>
    decreases headers.len(),
{
    if headers.len() == 0 {
        None
    } else if headers.last().name@ == name {
        Some(headers.last().value@)
    } else {
        last_header_value(headers.drop_last(), name)
    }
}

/// Whether a path segment names an entry: not empty, not `.`, not `..`.
pub open spec fn is_normal_segment(seg: Seq<u8>) -> bool {
    seg.len() > 0 && seg != seq![0x2eu8] && seg != seq![0x2eu8, 0x2eu8]
}

pub open spec fn push_if_normal(comps: Seq<Seq<u8>>, seg: Seq<u8>) -> Seq<Seq<u8>> {
    if is_normal_segment(seg) {
        comps.push(seg)
    } else {
        comps
    }
}

/// The entry names met in the first `i` bytes of `p`, and the segment still
/// being read.
pub open spec fn components_upto(p: Seq<u8>, i: nat) -> (Seq<Seq<u8>>, Seq<u8>)
    decreases i,
{
    if i == 0 || i > p.len() {
        (Seq::empty(), Seq::empty())
    } else {
        let (comps, cur) = components_upto(p, (i - 1) as nat);
        if p[i - 1] == 0x2fu8 {
            (push_if_normal(comps, cur), Seq::empty())
        } else {
            (comps, cur.push(p[i - 1]))
        }
    }
}

/// The entry names of a `/`-separated path, in order: its normal components,
/// with the root, `.` and `..` left out.
pub open spec fn normal_components(p: Seq<u8>) -> Seq<Seq<u8>> {
    let (comps, cur) = components_upto(p, p.len());
    push_if_normal(comps, cur)
}

/// `base` with `comp` pushed on as a further path component.
pub open spec fn path_push(base: Seq<u8>, comp: Seq<u8>) -> Seq<u8> {
    if base.len() > 0 && base.last() != 0x2fu8 {
        base.push(0x2fu8) + comp
    } else {
        base + comp
    }
}

/// `base` with the components `comps` pushed on in order.
pub open spec fn path_push_all(base: Seq<u8>, comps: Seq<Seq<u8>>) -> Seq<u8>
    decreases comps.len(),
{
    if comps.len() == 0 {
        base
    } else {
        path_push(path_push_all(base, comps.drop_last()), comps.last())
    }
}

/// What the server does for a request with these headers under `root`.
pub open spec fn spec_plan_response(root: Seq<u8>, headers: Seq<Header>) -> Option<Seq<u8>> {
    if last_header_value(headers, method_header()) == Some(get_method()) {
        let path = match last_header_value(headers, path_header()) {
            Some(p) => p,
            None => Seq::empty(),
        };
        Some(path_push_all(root, normal_components(path)))
    } else {
        None
    }
}

/// The decimal digits of `n`, most significant first.
pub open spec fn decimal(n: nat) -> Seq<u8>
    decreases n,
{
    if n < 10 {
        seq![(0x30 + n) as u8]
    } else {
        decimal(n / 10).push((0x30 + n % 10) as u8)
    }
}

/// The headers sent with a response of `status` and a body of `len` bytes.
pub open spec fn spec_response_headers(status: nat, len: nat) -> Seq<(Seq<u8>, Seq<u8>)> {
    seq![
        (status_header(), decimal(status)),
        (server_header(), server_name()),
        (content_length_header(), decimal(len)),
    ]
}

/// The status and body of the answer to a plan, given what reading the file
/// gave (`None` when it could not be read).
pub open spec fn spec_status_and_body(serve_file: bool, file: Option<Seq<u8>>) -> (nat, Seq<u8>) {
    if serve_file {
        match file {
            Some(data) => (200, data),
            None => (404, not_found_body()),
        }
    } else {
        (405, Seq::empty())
    }
}

/// The decimal digits of `n`, most significant first.
pub fn decimal_bytes(n: u64) -> (r: Vec<u8>)
    ensures
        r@ == decimal(n as nat),
    decreases n,
{
    if n < 10 {
        let mut r: Vec<u8> = Vec::new();
        r.push((0x30 + n) as u8);
        r
    } else {
        let mut r = decimal_bytes(n / 10);
        r.push((0x30 + n % 10) as u8);
        r
    }
}

fn path_header_bytes() -> (r: Vec<u8>)
    ensures
        r@ == path_header(),
{
    let r: Vec<u8> = vec![0x3au8, 0x70u8, 0x61u8, 0x74u8, 0x68u8];
    assert(r@ =~= path_header());
    r
}

fn method_header_bytes() -> (r: Vec<u8>)
    ensures
        r@ == method_header(),
{
    let r: Vec<u8> = vec![0x3au8, 0x6du8, 0x65u8, 0x74u8, 0x68u8, 0x6fu8, 0x64u8];
    assert(r@ =~= method_header());
    r
}

fn get_method_bytes() -> (r: Vec<u8>)
    ensures
        r@ == get_method(),
{
    let r: Vec<u8> = vec![0x47u8, 0x45u8, 0x54u8];
    assert(r@ =~= get_method());
    r
}

proof fn lemma_last_header_value_step(headers: Seq<Header>, name: Seq<u8>, i: int)
    requires
        0 <= i < headers.len(),
    ensures
        last_header_value(headers.subrange(0, i + 1), name) == (if headers[i].name@ == name {
            Some(headers[i].value@)
        } else {
            last_header_value(headers.subrange(0, i), name)
        }),
{
    assert(headers.subrange(0, i + 1).drop_last() =~= headers.subrange(0, i));
}

proof fn lemma_path_push_all_push_if_normal(root: Seq<u8>, comps: Seq<Seq<u8>>, seg: Seq<u8>)
    ensures
        path_push_all(root, push_if_normal(comps, seg)) == (if is_normal_segment(seg) {
            path_push(path_push_all(root, comps), seg)
        } else {
            path_push_all(root, comps)
        }),
{
    if is_normal_segment(seg) {
        assert(comps.push(seg).drop_last() =~= comps);
    }
}

fn is_normal(seg: &Vec<u8>) -> (r: bool)
    ensures
        r == is_normal_segment(seg@),
{
    if seg.len() == 0 {
        false
    } else if seg.len() == 1 && seg[0] == 0x2eu8 {
        assert(seg@ =~= seq![0x2eu8]);
        false
    } else if seg.len() == 2 && seg[0] == 0x2eu8 && seg[1] == 0x2eu8 {
        assert(seg@ =~= seq![0x2eu8, 0x2eu8]);
        false
    } else {
        assert(seg@ != seq![0x2eu8]) by {
            if seg@ == seq![0x2eu8] {
                assert(seg@[0] == 0x2eu8);
            }
        }
        assert(seg@ != seq![0x2eu8, 0x2eu8]) by {
            if seg@ == seq![0x2eu8, 0x2eu8] {
                assert(seg@[0] == 0x2eu8 && seg@[1] == 0x2eu8);
            }
        }
        true
    }
}

/// Pushes `comp` on `path` as a further component.
fn push_component(path: &mut Vec<u8>, comp: &Vec<u8>)
    ensures
        final(path)@ == path_push(old(path)@, comp@),
{
    let n = path.len();
    if n > 0 && path[n - 1] != 0x2fu8 {
        path.push(0x2fu8);
    }
    append_bytes(path, comp.as_slice());
}

/// Decides how to answer a request from its headers: a `GET` is answered
/// with the file under `root` that its `:path` names, walking only the
/// normal components of that path, so never above `root`; any other method
/// with 405. The last `:path` and `:method` headers count.
pub fn plan_response(root: &[u8], request: &[Header]) -> (r: ResponsePlan)
    requires
        forall|i: int|
            0 <= i < request@.len() && (#[trigger] request@[i]).name@ == path_header()
                ==> vstd::utf8::valid_utf8(request@[i].value@),
    ensures
        match r {
            ResponsePlan::ServeFile { path } => spec_plan_response(root@, request@) == Some(
                path@,
            ),
            ResponsePlan::MethodNotAllowed => spec_plan_response(root@, request@) is None,
        },
{
    let path_name = path_header_bytes();
    let method_name = method_header_bytes();
    let mut path_idx: Option<usize> = None;
    let mut method_idx: Option<usize> = None;
    let mut i: usize = 0;
    while i < request.len()
        invariant
            i <= request@.len(),
            path_name@ == path_header(),
            method_name@ == method_header(),
            match path_idx {
                Some(k) => k < i && last_header_value(request@.subrange(0, i as int), path_header())
                    == Some(request@[k as int].value@),
                None => last_header_value(request@.subrange(0, i as int), path_header()) is None,
            },
            match method_idx {
                Some(k) => k < i && last_header_value(request@.subrange(0, i as int), method_header())
                    == Some(request@[k as int].value@),
                None => last_header_value(request@.subrange(0, i as int), method_header()) is None,
            },
        decreases request@.len() - i,
    {
        proof {
            lemma_last_header_value_step(request@, path_header(), i as int);
            lemma_last_header_value_step(request@, method_header(), i as int);
        }
        if crate::bytes::bytes_eq(request[i].name.as_slice(), path_name.as_slice()) {
            path_idx = Some(i);
        } else if crate::bytes::bytes_eq(request[i].name.as_slice(), method_name.as_slice()) {
            method_idx = Some(i);
        }
        i = i + 1;
    }
    assert(request@.subrange(0, request@.len() as int) =~= request@);
    let is_get = match method_idx {
        Some(k) => {
            let get = get_method_bytes();
            crate::bytes::bytes_eq(request[k].value.as_slice(), get.as_slice())
        },
        None => false,
    };
    if !is_get {
        return ResponsePlan::MethodNotAllowed;
    }
    let empty: Vec<u8> = Vec::new();
    let p: &[u8] = match path_idx {
        Some(k) => request[k].value.as_slice(),
        None => empty.as_slice(),
    };
    let ghost pv = p@;
    let mut file: Vec<u8> = Vec::new();
    append_bytes(&mut file, root);
    assert(file@ =~= root@);
    let mut cur: Vec<u8> = Vec::new();
    let mut j: usize = 0;
    while j < p.len()
        invariant
            j <= pv.len(),
            p@ == pv,
            file@ == path_push_all(root@, components_upto(pv, j as nat).0),
            cur@ == components_upto(pv, j as nat).1,
        decreases pv.len() - j,
    {
        let b = p[j];
        proof {
            lemma_path_push_all_push_if_normal(root@, components_upto(pv, j as nat).0, cur@);
        }
        if b == 0x2fu8 {
            if is_normal(&cur) {
                push_component(&mut file, &cur);
            }
            cur = Vec::new();
        } else {
            cur.push(b);
        }
        j = j + 1;
    }
    proof {
        lemma_path_push_all_push_if_normal(root@, components_upto(pv, pv.len()).0, cur@);
    }
    if is_normal(&cur) {
        push_component(&mut file, &cur);
    }
    ResponsePlan::ServeFile { path: file }
}

/// The bytes of an optional byte vector.
pub open spec fn opt_bytes(o: Option<Vec<u8>>) -> Option<Seq<u8>> {
    match o {
        Some(v) => Some(v@),
        None => None,
    }
}

fn literal_header(name: Vec<u8>, value: Vec<u8>) -> (h: Header)
    ensures
        h.name@ == name@,
        h.value@ == value@,
{
    Header { name, value }
}

/// The answer to a request: its headers and body. `file` is what reading
/// the planned file gave, `None` when it could not be read; it is not
/// looked at for a 405.
pub fn build_response(plan: &ResponsePlan, file: Option<Vec<u8>>) -> (r: (Vec<Header>, Vec<u8>))
    ensures
        ({
            let (status, body) = spec_status_and_body(plan is ServeFile, opt_bytes(file));
            &&& r.1@ == body
            &&& r.0@.map_values(|h: Header| header_view(h)) == spec_response_headers(
                status,
                body.len(),
            )
        }),
{
    let (status, body): (u64, Vec<u8>) = match plan {
        ResponsePlan::ServeFile { .. } => match file {
            Some(data) => (200, data),
            None => {
                let b: Vec<u8> = vec![
                    0x4eu8, 0x6fu8, 0x74u8, 0x20u8, 0x46u8, 0x6fu8, 0x75u8, 0x6eu8, 0x64u8, 0x21u8,
                ];
                assert(b@ =~= not_found_body());
                (404, b)
            },
        },
        ResponsePlan::MethodNotAllowed => {
            let b: Vec<u8> = Vec::new();
            assert(b@ =~= Seq::<u8>::empty());
            (405, b)
        },
    };
    let status_name: Vec<u8> = vec![0x3au8, 0x73u8, 0x74u8, 0x61u8, 0x74u8, 0x75u8, 0x73u8];
    assert(status_name@ =~= status_header());
    let server: Vec<u8> = vec![0x73u8, 0x65u8, 0x72u8, 0x76u8, 0x65u8, 0x72u8];
    assert(server@ =~= server_header());
    let quiche: Vec<u8> = vec![0x71u8, 0x75u8, 0x69u8, 0x63u8, 0x68u8, 0x65u8];
    assert(quiche@ =~= server_name());
    let length_name: Vec<u8> = vec![
        0x63u8, 0x6fu8, 0x6eu8, 0x74u8, 0x65u8, 0x6eu8, 0x74u8, 0x2du8,
        0x6cu8, 0x65u8, 0x6eu8, 0x67u8, 0x74u8, 0x68u8,
    ];
    assert(length_name@ =~= content_length_header());
    let len = body.len();
    let mut headers: Vec<Header> = Vec::new();
    headers.push(literal_header(status_name, decimal_bytes(status)));
    headers.push(literal_header(server, quiche));
    headers.push(literal_header(length_name, decimal_bytes(len as u64)));
    assert(headers@.map_values(|h: Header| header_view(h)) =~= spec_response_headers(
        status as nat,
        body@.len(),
    ));
    (headers, body)
}

/// Whether a byte string holds no `/`.
pub open spec fn slash_free(s: Seq<u8>) -> bool {
    forall|k: int| 0 <= k < s.len() ==> s[k] != 0x2fu8
}

proof fn lemma_components_upto_are_names(p: Seq<u8>, i: nat)
    ensures
        slash_free(components_upto(p, i).1),
        forall|k: int|
            0 <= k < components_upto(p, i).0.len() ==> is_normal_segment(
                #[trigger] components_upto(p, i).0[k],
            ) && slash_free(components_upto(p, i).0[k]),
    decreases i,
{
    if i == 0 || i > p.len() {
    } else {
        lemma_components_upto_are_names(p, (i - 1) as nat);
        let (comps, cur) = components_upto(p, (i - 1) as nat);
        if p[i - 1] != 0x2fu8 {
            let next = cur.push(p[i - 1]);
            assert forall|k: int| 0 <= k < next.len() implies #[trigger] next[k] != 0x2fu8 by {
                if k < cur.len() {
                    assert(next[k] == cur[k]);
                }
            }
        }
    }
}

/// A served path never leaves the root: every component taken from a
/// request's `:path` is an entry name, neither empty nor `.` nor `..`, and
/// holds no `/`.
pub proof fn lemma_components_stay_below_root(p: Seq<u8>)
    ensures
        forall|k: int|
            0 <= k < normal_components(p).len() ==> is_normal_segment(
                #[trigger] normal_components(p)[k],
            ) && slash_free(normal_components(p)[k]),
{
    lemma_components_upto_are_names(p, p.len());
}

/// What a request is answered with: a file that could be read is sent
/// whole with status 200, whatever its length, empty included, and its
/// length as content length; a file that could not be read gets 404 with
/// the body `Not Found!`; a request that is not a `GET` gets 405 with no
/// body.
pub proof fn lemma_response_status_and_body(data: Seq<u8>)
    ensures
        spec_status_and_body(true, Some(data)) == (200nat, data),
        spec_status_and_body(true, None) == (404nat, seq![
            0x4eu8, 0x6fu8, 0x74u8, 0x20u8, 0x46u8, 0x6fu8, 0x75u8, 0x6eu8, 0x64u8, 0x21u8,
        ]),
        spec_status_and_body(false, Some(data)) == (405nat, Seq::<u8>::empty()),
        spec_status_and_body(false, None) == (405nat, Seq::<u8>::empty()),
        decimal(200) == seq![0x32u8, 0x30u8, 0x30u8],
        decimal(404) == seq![0x34u8, 0x30u8, 0x34u8],
        decimal(405) == seq![0x34u8, 0x30u8, 0x35u8],
        decimal(0) == seq![0x30u8],
{
    assert(decimal(2) == seq![0x32u8]);
    assert(decimal(20) =~= seq![0x32u8, 0x30u8]);
    assert(decimal(200) =~= seq![0x32u8, 0x30u8, 0x30u8]);
    assert(decimal(4) == seq![0x34u8]);
    assert(decimal(40) =~= seq![0x34u8, 0x30u8]);
    assert(decimal(404) =~= seq![0x34u8, 0x30u8, 0x34u8]);
    assert(decimal(405) =~= seq![0x34u8, 0x30u8, 0x35u8]);
}

/// `components_upto` reads only the first `i` bytes.
proof fn lemma_components_upto_prefix(p: Seq<u8>, q: Seq<u8>, i: nat)
    requires
        i <= p.len(),
        i <= q.len(),
        p.subrange(0, i as int) == q.subrange(0, i as int),
    ensures
        components_upto(p, i) == components_upto(q, i),
    decreases i,
{
    if i > 0 {
        assert(p.subrange(0, i - 1) =~= p.subrange(0, i as int).subrange(0, i - 1));
        assert(q.subrange(0, i - 1) =~= q.subrange(0, i as int).subrange(0, i - 1));
        assert(p[i - 1] == p.subrange(0, i as int)[i - 1]);
        assert(q[i - 1] == q.subrange(0, i as int)[i - 1]);
        lemma_components_upto_prefix(p, q, (i - 1) as nat);
    }
}

/// Reading `a`, a `/` and then the first `j` bytes of `b` gives the
/// components of `a` followed by those met in those bytes of `b`.
proof fn lemma_components_upto_after_slash(a: Seq<u8>, b: Seq<u8>, j: nat)
    requires
        j <= b.len(),
    ensures
        ({
            let x = a + seq![0x2fu8] + b;
            let (cb, curb) = components_upto(b, j);
            components_upto(x, a.len() + 1 + j) == (normal_components(a) + cb, curb)
        }),
    decreases j,
{
    let x = a + seq![0x2fu8] + b;
    if j == 0 {
        assert(x.subrange(0, a.len() as int) =~= a.subrange(0, a.len() as int));
        lemma_components_upto_prefix(x, a, a.len());
        assert(x[a.len() as int] == 0x2fu8);
        assert(normal_components(a) + Seq::<Seq<u8>>::empty() =~= normal_components(a));
    } else {
        lemma_components_upto_after_slash(a, b, (j - 1) as nat);
        assert(x[a.len() + 1 + j - 1] == b[j - 1]);
        let (cb, curb) = components_upto(b, (j - 1) as nat);
        if b[j - 1] == 0x2fu8 {
            if is_normal_segment(curb) {
                assert((normal_components(a) + cb).push(curb) =~= normal_components(a) + cb.push(
                    curb,
                ));
            }
        }
    }
}

/// The components of a `/`-separated path are those of the part before a
/// `/` followed by those of the part after it.
pub proof fn lemma_components_split_at_slash(a: Seq<u8>, b: Seq<u8>)
    ensures
        normal_components(a + seq![0x2fu8] + b) == normal_components(a) + normal_components(b),
{
    let x = a + seq![0x2fu8] + b;
    lemma_components_upto_after_slash(a, b, b.len());
    assert(x.len() == a.len() + 1 + b.len());
    let (cb, curb) = components_upto(b, b.len());
    if is_normal_segment(curb) {
        assert((normal_components(a) + cb).push(curb) =~= normal_components(a) + cb.push(curb));
    }
}

/// Before the first `/`, no component is complete and the bytes read so
/// far are the segment being read.
proof fn lemma_components_upto_within_segment(seg: Seq<u8>, i: nat)
    requires
        i <= seg.len(),
        slash_free(seg),
    ensures
        components_upto(seg, i) == (Seq::<Seq<u8>>::empty(), seg.subrange(0, i as int)),
    decreases i,
{
    if i > 0 {
        lemma_components_upto_within_segment(seg, (i - 1) as nat);
        assert(seg.subrange(0, i - 1).push(seg[i - 1]) =~= seg.subrange(0, i as int));
    } else {
        assert(seg.subrange(0, 0) =~= Seq::<u8>::empty());
    }
}

/// A single segment with no `/` is a component of its own exactly when it
/// is neither empty nor `.` nor `..`; every other byte string, a name
/// starting with a dot such as `.well-known` included, is kept as it is.
pub proof fn lemma_single_segment_components(seg: Seq<u8>)
    requires
        slash_free(seg),
    ensures
        (seg.len() > 0 && seg != seq![0x2eu8] && seg != seq![0x2eu8, 0x2eu8])
            ==> normal_components(seg) == seq![seg],
        (seg.len() == 0 || seg == seq![0x2eu8] || seg == seq![0x2eu8, 0x2eu8])
            ==> normal_components(seg) == Seq::<Seq<u8>>::empty(),
{
    lemma_components_upto_within_segment(seg, seg.len());
    assert(seg.subrange(0, seg.len() as int) =~= seg);
    assert(Seq::<Seq<u8>>::empty().push(seg) =~= seq![seg]);
}

/// A `GET` for `/` followed by one entry name is served from that entry
/// directly under the root.
pub proof fn lemma_get_serves_entry_under_root(root: Seq<u8>, headers: Seq<Header>, name: Seq<u8>)
    requires
        last_header_value(headers, method_header()) == Some(seq![0x47u8, 0x45u8, 0x54u8]),
        last_header_value(headers, path_header()) == Some(seq![0x2fu8] + name),
        slash_free(name),
        name.len() > 0,
        name != seq![0x2eu8],
        name != seq![0x2eu8, 0x2eu8],
        root.len() > 0,
        root.last() != 0x2fu8,
    ensures
        spec_plan_response(root, headers) == Some(root.push(0x2fu8) + name),
{
    assert(seq![0x2fu8] + name =~= Seq::<u8>::empty() + seq![0x2fu8] + name);
    lemma_components_split_at_slash(Seq::<u8>::empty(), name);
    lemma_single_segment_components(Seq::<u8>::empty());
    lemma_single_segment_components(name);
    assert(Seq::<Seq<u8>>::empty() + seq![name] =~= seq![name]);
    let comps = seq![name];
    assert(normal_components(seq![0x2fu8] + name) == comps);
    assert(comps.drop_last() =~= Seq::<Seq<u8>>::empty());
    assert(path_push_all(root, comps.drop_last()) == root);
    assert(path_push_all(root, comps) == path_push(root, name));
    assert(get_method() == seq![0x47u8, 0x45u8, 0x54u8]);
}

} // verus!
