//! The chat-completion client's own logic: endpoint and header assembly, and
//! the decoder that turns the server-sent-event stream into JSON payloads.
use vstd::prelude::*;

use vstd::string::*;
use vstd::utf8::{
    decode_utf8, decode_utf8_encode_utf8, encode_utf8, encode_utf8_decode_utf8, valid_utf8,
    valid_utf8_concat,
};

use crate::endpoint::{bearer, default_base_url, default_base_url_string, join_url, HttpTarget};
use crate::text::{
    chars_of, copy_range, is_white_space, lemma_trim_is_range, string_from_chars, trim, trim_end,
    trim_range, trim_start,
};

verus! {

/// The model asked for when none is configured.
pub open spec fn default_model() -> Seq<char> {
    "gpt-4o"@
}

/// What the client is configured with.
pub struct AiClientView {
    pub api_key: Seq<char>,
    pub model: Seq<char>,
    pub base_url: Seq<char>,
}

/// A chat-completion client's configuration: credentials, model and API root.
pub struct AiClient {
    api_key: String,
    model: String,
    base_url: String,
}

impl View for AiClient {
    type V = AiClientView;

    closed spec fn view(&self) -> AiClientView {
        AiClientView { api_key: self.api_key@, model: self.model@, base_url: self.base_url@ }
    }
}

impl AiClient {
    /// A client for `api_key`; the model defaults to `gpt-4o` and the API
    /// root to `https://api.openai.com/v1`.
    pub fn new(api_key: String, model: Option<String>, base_url: Option<String>) -> (c: Self)
        ensures
            c@.api_key == api_key@,
            c@.model == match model {
                Some(m) => m@,
                None => default_model(),
            },
            c@.base_url == match base_url {
                Some(u) => u@,
                None => default_base_url(),
            },
    {
        let model = match model {
            Some(m) => m,
            None => String::from_str("gpt-4o"),
        };
        let base_url = match base_url {
            Some(u) => u,
            None => default_base_url_string(),
        };
        AiClient { api_key, model, base_url }
    }

    /// The model that requests name.
    pub fn model(&self) -> (m: &str)
        ensures
            m@ == self@.model,
    {
        self.model.as_str()
    }

    /// The streaming chat-completion endpoint, `<base>/chat/completions`,
    /// and its bearer authorization.
    pub fn completions_target(&self) -> (t: HttpTarget)
        ensures
            t.url@ == self@.base_url + "/chat/completions"@,
            t.authorization@ == "Bearer "@ + self@.api_key,
    {
        HttpTarget {
            url: join_url(self.base_url.as_str(), "/chat/completions"),
            authorization: bearer(self.api_key.as_str()),
        }
    }
}

/// The content delta of one choice of a streamed chunk.
pub struct Delta {
    pub content: Option<String>,
}

/// One choice of a streamed chunk.
pub struct StreamChoice {
    pub delta: Delta,
}

/// One event payload of the stream, once parsed.
pub struct StreamChunk {
    pub choices: Vec<StreamChoice>,
}

/// The content deltas of the choices, in order.
pub open spec fn choice_contents(v: Seq<StreamChoice>) -> Seq<Option<Seq<char>>> {
    v.map_values(
        |c: StreamChoice|
            match c.delta.content {
                Some(t) => Some(t@),
                None => None,
            },
    )
}

/// The contents that are present, in order.
pub open spec fn present_tokens(s: Seq<Option<Seq<char>>>) -> Seq<Seq<char>>
    decreases s.len(),
{
    if s.len() == 0 {
        Seq::empty()
    } else {
        match s.last() {
            Some(t) => present_tokens(s.drop_last()).push(t),
            None => present_tokens(s.drop_last()),
        }
    }
}

/// Collecting present contents commutes with adding one more choice: a
/// present content, whatever text it holds, is added to the end unchanged,
/// and an absent one adds nothing.
pub proof fn law_present_tokens_push(s: Seq<Option<Seq<char>>>, t: Seq<char>)
    ensures
        present_tokens(Seq::<Option<Seq<char>>>::empty()) == Seq::<Seq<char>>::empty(),
        present_tokens(s.push(Some(t))) == present_tokens(s).push(t),
        present_tokens(s.push(None)) == present_tokens(s),
{
    assert(s.push(Some(t)).drop_last() =~= s);
    assert(s.push(None::<Seq<char>>).drop_last() =~= s);
}

/// The tokens of a run of choices are those of its first part followed by
/// those of the rest.
pub proof fn law_present_tokens_concat(a: Seq<Option<Seq<char>>>, b: Seq<Option<Seq<char>>>)
    ensures
        present_tokens(a + b) == present_tokens(a) + present_tokens(b),
    decreases b.len(),
{
    if b.len() == 0 {
        assert(a + b =~= a);
        assert(present_tokens(a) + present_tokens(b) =~= present_tokens(a));
    } else {
        assert((a + b).drop_last() =~= a + b.drop_last());
        assert((a + b).last() == b.last());
        law_present_tokens_concat(a, b.drop_last());
        match b.last() {
            Some(t) => {
                assert(present_tokens(a) + present_tokens(b) =~= (present_tokens(a)
                    + present_tokens(b.drop_last())).push(t));
            },
            None => {},
        }
    }
}

/// The tokens are exactly the present contents, in order and unchanged: one
/// per choice that has content, and when every choice has content, the
/// contents themselves, one for one.
pub proof fn law_present_tokens_are_the_contents(s: Seq<Option<Seq<char>>>)
    ensures
        present_tokens(s) == s.filter_map(|o: Option<Seq<char>>| o),
        present_tokens(s).len() == s.filter(|o: Option<Seq<char>>| o is Some).len(),
        (forall|i: int| 0 <= i < s.len() ==> s[i] is Some) ==> present_tokens(s) == s.map_values(
            |o: Option<Seq<char>>| o->0,
        ),
    decreases s.len(),
{
    reveal(Seq::filter);
    if s.len() > 0 {
        law_present_tokens_are_the_contents(s.drop_last());
        if forall|i: int| 0 <= i < s.len() ==> s[i] is Some {
            assert(forall|i: int| 0 <= i < s.drop_last().len() ==> s.drop_last()[i] == s[i]);
            assert(present_tokens(s) =~= s.map_values(|o: Option<Seq<char>>| o->0));
        }
    } else {
        assert(present_tokens(s) =~= s.map_values(|o: Option<Seq<char>>| o->0));
    }
}

impl StreamChunk {
    /// The tokens a chunk carries: the content of each choice that has one,
    /// in order.
    pub fn content_tokens(&self) -> (tokens: Vec<String>)
        ensures
            views(tokens@) == present_tokens(choice_contents(self.choices@)),
    {
        let ghost all = choice_contents(self.choices@);
        let mut tokens: Vec<String> = Vec::new();
        let mut i: usize = 0;
        while i < self.choices.len()
            invariant
                i <= self.choices@.len(),
                all == choice_contents(self.choices@),
                views(tokens@) == present_tokens(all.take(i as int)),
            decreases self.choices@.len() - i,
        {
            assert(all.take(i + 1).drop_last() =~= all.take(i as int));
            let ghost before = tokens@;
            match &self.choices[i].delta.content {
                Some(t) => {
                    tokens.push(t.clone());
                    assert(views(tokens@) =~= views(before).push(t@));
                },
                None => {},
            }
            i = i + 1;
        }
        assert(all.take(self.choices@.len() as int) =~= all);
        tokens
    }
}

/// The text `String::from_utf8_lossy` makes of `bytes`.
pub uninterp spec fn utf8_lossy(bytes: Seq<u8>) -> Seq<char>;

/// `String::from_utf8_lossy`: the text of `bytes`, with each invalid
/// sequence replaced by U+FFFD. Claimed: the result is the named function of
/// the bytes, and for valid UTF-8 it is exactly the decoded text. What the
/// replacement gives on invalid input is left unsaid.
#[verifier::external_body]
fn decode_lossy(bytes: &[u8]) -> (s: String)
    ensures
        s@ == utf8_lossy(bytes@),
        valid_utf8(bytes@) ==> s@ == decode_utf8(bytes@),
{
    String::from_utf8_lossy(bytes).into_owned()
}

/// `data: `, the prefix of a line that carries a payload.
pub open spec fn data_prefix() -> Seq<char> {
    seq!['d', 'a', 't', 'a', ':', ' ']
}

/// `data: [DONE]`, the line that ends a stream.
pub open spec fn done_line() -> Seq<char> {
    seq!['d', 'a', 't', 'a', ':', ' ', '[', 'D', 'O', 'N', 'E', ']']
}

/// Number of characters before the first line feed of `s` (all of `s` when
/// it holds none).
pub open spec fn line_len(s: Seq<char>) -> nat
    decreases s.len(),
{
    if s.len() == 0 {
        0
    } else if s[0] == '\n' {
        0
    } else {
        1 + line_len(s.drop_first())
    }
}

/// Whether `s` holds a complete line, i.e. a line feed.
pub open spec fn has_line(s: Seq<char>) -> bool {
    line_len(s) < s.len()
}

/// What one received line yields: the text after `data: ` on a trimmed line
/// that starts with it, except the end marker; nothing for any other line.
pub open spec fn line_payload(line: Seq<char>) -> Option<Seq<char>> {
    trimmed_payload(trim(line))
}

/// What a line yields once its surrounding white space is gone.
pub open spec fn trimmed_payload(t: Seq<char>) -> Option<Seq<char>> {
    if t.len() == 0 || t == done_line() {
        None
    } else if t.len() >= 6 && t.take(6) == data_prefix() {
        Some(t.skip(6))
    } else {
        None
    }
}

/// The payloads of the complete lines of `s`, in order.
pub open spec fn stream_payloads(s: Seq<char>) -> Seq<Seq<char>>
    decreases s.len(),
{
    if has_line(s) {
        let n: nat = line_len(s);
        let rest = stream_payloads(s.skip(n + 1 as int));
        match line_payload(s.take(n as int)) {
            Some(p) => seq![p] + rest,
            None => rest,
        }
    } else {
        seq![]
    }
}

/// What is left of `s` after its complete lines: the unfinished last line.
pub open spec fn stream_rest(s: Seq<char>) -> Seq<char>
    decreases s.len(),
{
    if has_line(s) {
        stream_rest(s.skip(line_len(s) + 1 as int))
    } else {
        s
    }
}

/// The views of a sequence of strings.
pub open spec fn views(v: Seq<String>) -> Seq<Seq<char>> {
    v.map_values(|s: String| s@)
}

/// Incremental decoder of a chat-completion event stream. It keeps the
/// unfinished line between chunks.
pub struct SseDecoder {
    pending: Vec<char>,
}

impl View for SseDecoder {
    type V = Seq<char>;

    closed spec fn view(&self) -> Seq<char> {
        self.pending@
    }
}

proof fn lemma_line_len_bound(s: Seq<char>)
    ensures
        line_len(s) <= s.len(),
        line_len(s) < s.len() ==> s[line_len(s) as int] == '\n',
        forall|k: int| 0 <= k < line_len(s) ==> s[k] != '\n',
    decreases s.len(),
{
    if s.len() > 0 && s[0] != '\n' {
        lemma_line_len_bound(s.drop_first());
        assert forall|k: int| 0 <= k < line_len(s) implies s[k] != '\n' by {
            if k > 0 {
                assert(s[k] == s.drop_first()[k - 1]);
            }
        }
    }
}

proof fn lemma_line_len_exact(s: Seq<char>, n: int)
    requires
        0 <= n <= s.len(),
        forall|k: int| 0 <= k < n ==> s[k] != '\n',
        n < s.len() ==> s[n] == '\n',
    ensures
        line_len(s) == n,
    decreases n,
{
    if n > 0 {
        assert forall|k: int| 0 <= k < n - 1 implies s.drop_first()[k] != '\n' by {
            assert(s.drop_first()[k] == s[k + 1]);
        }
        lemma_line_len_exact(s.drop_first(), n - 1);
    }
}

proof fn lemma_stream_concat(a: Seq<char>, b: Seq<char>)
    ensures
        stream_payloads(a + b) == stream_payloads(a) + stream_payloads(stream_rest(a) + b),
        stream_rest(a + b) == stream_rest(stream_rest(a) + b),
    decreases a.len(),
{
    lemma_line_len_bound(a);
    if has_line(a) {
        let n: int = line_len(a) as int;
        assert forall|k: int| 0 <= k < n implies (a + b)[k] != '\n' by {
            assert((a + b)[k] == a[k]);
        }
        assert((a + b)[n] == a[n]);
        lemma_line_len_exact(a + b, n);
        assert((a + b).take(n) =~= a.take(n));
        assert((a + b).skip(n + 1) =~= a.skip(n + 1) + b);
        lemma_stream_concat(a.skip(n + 1), b);
        assert(stream_payloads(a + b) =~= stream_payloads(a) + stream_payloads(stream_rest(a) + b));
    } else {
        assert(stream_payloads(a) + stream_payloads(stream_rest(a) + b) =~= stream_payloads(a + b));
    }
}

/// Splitting the stream does not change what it yields: feeding `x` and
/// then `y` gives the payloads, in order, and leaves the unfinished line that
/// feeding `x + y` at once gives and leaves.
pub proof fn law_split_invariance(pending: Seq<char>, x: Seq<char>, y: Seq<char>)
    ensures
        stream_payloads(pending + x) + stream_payloads(stream_rest(pending + x) + y)
            == stream_payloads(pending + (x + y)),
        stream_rest(stream_rest(pending + x) + y) == stream_rest(pending + (x + y)),
{
    assert(pending + (x + y) =~= (pending + x) + y);
    lemma_stream_concat(pending + x, y);
}

proof fn lemma_encode_concat(a: Seq<char>, b: Seq<char>)
    ensures
        encode_utf8(a + b) == encode_utf8(a) + encode_utf8(b),
    decreases a.len(),
{
    if a.len() == 0 {
        assert(a + b =~= b);
        assert(encode_utf8(a) + encode_utf8(b) =~= encode_utf8(b));
    } else {
        lemma_encode_concat(a.drop_first(), b);
        assert((a + b).drop_first() =~= a.drop_first() + b);
        assert((a + b)[0] == a[0]);
        assert(encode_utf8(a + b) =~= encode_utf8(a) + encode_utf8(b));
    }
}

/// Decoding two valid UTF-8 chunks one after the other gives the text of
/// the two chunks joined.
proof fn lemma_decode_concat(x: Seq<u8>, y: Seq<u8>)
    requires
        valid_utf8(x),
        valid_utf8(y),
    ensures
        valid_utf8(x + y),
        decode_utf8(x + y) == decode_utf8(x) + decode_utf8(y),
{
    valid_utf8_concat(x, y);
    decode_utf8_encode_utf8(x);
    decode_utf8_encode_utf8(y);
    lemma_encode_concat(decode_utf8(x), decode_utf8(y));
    encode_utf8_decode_utf8(decode_utf8(x) + decode_utf8(y));
}

/// Splitting the byte stream between valid UTF-8 chunks does not change what
/// it yields either: feeding `x` and then `y` gives the payloads, and leaves
/// the unfinished line, that feeding `x + y` at once gives and leaves.
pub proof fn law_split_invariance_bytes(pending: Seq<char>, x: Seq<u8>, y: Seq<u8>)
    requires
        valid_utf8(x),
        valid_utf8(y),
    ensures
        valid_utf8(x + y),
        stream_payloads(pending + decode_utf8(x)) + stream_payloads(
            stream_rest(pending + decode_utf8(x)) + decode_utf8(y),
        ) == stream_payloads(pending + decode_utf8(x + y)),
        stream_rest(stream_rest(pending + decode_utf8(x)) + decode_utf8(y)) == stream_rest(
            pending + decode_utf8(x + y),
        ),
{
    lemma_decode_concat(x, y);
    law_split_invariance(pending, decode_utf8(x), decode_utf8(y));
}

/// The kept, unfinished line never holds a line feed, and a payload never
/// holds one either.
pub proof fn law_no_line_feed_kept(s: Seq<char>)
    ensures
        forall|k: int| 0 <= k < stream_rest(s).len() ==> stream_rest(s)[k] != '\n',
        forall|i: int, k: int|
            0 <= i < stream_payloads(s).len() && 0 <= k < stream_payloads(s)[i].len()
                ==> stream_payloads(s)[i][k] != '\n',
    decreases s.len(),
{
    lemma_line_len_bound(s);
    if has_line(s) {
        let n: int = line_len(s) as int;
        law_no_line_feed_kept(s.skip(n + 1));
        let (lo, hi): (int, int) = lemma_trim_is_range(s.take(n));
        let rest = stream_payloads(s.skip(n + 1));
        assert(stream_rest(s) == stream_rest(s.skip(n + 1)));
        match line_payload(s.take(n)) {
            Some(p) => {
                assert forall|i: int, k: int|
                    0 <= i < stream_payloads(s).len() && 0 <= k < stream_payloads(s)[i].len()
                    implies stream_payloads(s)[i][k] != '\n' by {
                    if i == 0 {
                        let t = trim(s.take(n));
                        assert(p == t.skip(6));
                        assert(p[k] == t[k + 6]);
                        assert(t[k + 6] == s.take(n)[lo + k + 6]);
                        assert(s.take(n)[lo + k + 6] == s[lo + k + 6]);
                    } else {
                        assert(stream_payloads(s)[i] == rest[i - 1]);
                    }
                }
            },
            None => {},
        }
    } else {
        assert(stream_rest(s) == s);
    }
}

/// A `data: ` line whose payload is anything but `[DONE]`, of any length,
/// yields exactly that payload: once the line is trimmed, the text after
/// `data: ` is handed on whole, and a stream made of that one line gives that
/// one payload and keeps nothing.
pub proof fn law_data_line_yields_payload(p: Seq<char>)
    requires
        p.len() > 0,
        !is_white_space(p[0]),
        !is_white_space(p.last()),
        forall|k: int| 0 <= k < p.len() ==> p[k] != '\n',
        p != seq!['[', 'D', 'O', 'N', 'E', ']'],
    ensures
        trimmed_payload(seq!['d', 'a', 't', 'a', ':', ' '] + p) == Some(p),
        line_payload(seq!['d', 'a', 't', 'a', ':', ' '] + p) == Some(p),
        stream_payloads(seq!['d', 'a', 't', 'a', ':', ' '] + p + seq!['\n']) == seq![p],
        stream_rest(seq!['d', 'a', 't', 'a', ':', ' '] + p + seq!['\n']) == Seq::<char>::empty(),
        line_payload(seq![' '] + seq!['d', 'a', 't', 'a', ':', ' '] + p + seq!['\r']) == Some(p),
{
    let pre: Seq<char> = seq!['d', 'a', 't', 'a', ':', ' '];
    let line = pre + p;
    let s = line + seq!['\n'];
    assert(line.take(6) =~= pre);
    assert(line.skip(6) =~= p);
    assert(line != done_line()) by {
        if line == done_line() {
            assert(line.skip(6) =~= seq!['[', 'D', 'O', 'N', 'E', ']']);
        }
    }
    assert(line[0] == 'd');
    assert(line.last() == p.last());
    assert(trim_start(line) == line);
    assert(trim_end(line) == line);
    assert(trim(line) == line);
    let padded = seq![' '] + line + seq!['\r'];
    assert(padded.drop_first() =~= line + seq!['\r']);
    assert(trim_start(padded) == trim_start(line + seq!['\r']));
    assert((line + seq!['\r'])[0] == 'd');
    assert(trim_start(line + seq!['\r']) == line + seq!['\r']);
    assert((line + seq!['\r']).drop_last() =~= line);
    assert(trim_end(line + seq!['\r']) == trim_end(line));
    assert(seq![' '] + pre + p + seq!['\r'] =~= padded);
    assert(trim(padded) == line);
    assert forall|k: int| 0 <= k < line.len() implies s[k] != '\n' by {
        assert(s[k] == line[k]);
        if k >= 6 {
            assert(line[k] == p[k - 6]);
        }
    }
    assert(s[line.len() as int] == '\n');
    lemma_line_len_exact(s, line.len() as int);
    assert(s.take(line.len() as int) =~= line);
    assert(s.skip(line.len() + 1 as int) =~= Seq::<char>::empty());
    let e = Seq::<char>::empty();
    assert(line_len(e) == 0);
    assert(!has_line(e));
    assert(stream_payloads(e) == Seq::<Seq<char>>::empty());
    assert(stream_rest(e) == e);
    assert(has_line(s));
    assert(line_payload(s.take(line.len() as int)) == Some(p));
    assert(stream_payloads(s) == seq![p] + stream_payloads(e));
    assert(stream_payloads(s) =~= seq![p]);
    assert(stream_rest(s) == stream_rest(e));
}

/// A trimmed line yields nothing unless it starts with `data: `, and the end
/// marker `data: [DONE]` yields nothing either.
pub proof fn law_other_lines_yield_nothing(t: Seq<char>)
    ensures
        !(t.len() >= 6 && t.take(6) == seq!['d', 'a', 't', 'a', ':', ' ']) ==> trimmed_payload(t) is None,
        trimmed_payload(seq!['d', 'a', 't', 'a', ':', ' ', '[', 'D', 'O', 'N', 'E', ']']) is None,
{
}

impl SseDecoder {
    /// A decoder with nothing pending.
    pub fn new() -> (d: Self)
        ensures
            d@ == Seq::<char>::empty(),
    {
        SseDecoder { pending: Vec::new() }
    }

    /// The payload of one trimmed line, if it carries one.
    fn payload_of_trimmed(t: &Vec<char>) -> (r: Option<Vec<char>>)
        ensures
            r matches Some(p) ==> trimmed_payload(t@) == Some(p@),
            r is None ==> trimmed_payload(t@) is None,
    {
        let prefix: Vec<char> = vec!['d', 'a', 't', 'a', ':', ' '];
        assert(prefix@ =~= data_prefix());
        if t.len() == 0 {
            return None;
        }
        if t.len() < 6 {
            return None;
        }
        let mut k: usize = 0;
        while k < 6
            invariant
                6 <= t@.len(),
                prefix@ == data_prefix(),
                k <= 6,
                forall|i: int| 0 <= i < k ==> t@[i] == data_prefix()[i],
            decreases 6 - k,
        {
            if t[k] != prefix[k] {
                assert(t@.take(6)[k as int] != data_prefix()[k as int]);
                assert(t@.take(6) != data_prefix());
                return None;
            }
            k = k + 1;
        }
        assert(t@.take(6) =~= data_prefix());
        if t.len() == 12 && t[6] == '[' && t[7] == 'D' && t[8] == 'O' && t[9] == 'N' && t[10]
            == 'E' && t[11] == ']' {
            assert(t@ =~= done_line());
            return None;
        }
        assert(t@ != done_line()) by {
            if t@ == done_line() {
                assert(t@[6] == '[');
            }
        }
        let body = copy_range(t, 6, t.len());
        assert(body@ =~= t@.skip(6));
        Some(body)
    }

    /// Takes the next piece of the stream as text and returns the payloads
    /// of the lines it completes, in order; the unfinished last line is kept
    /// for the next call.
    pub fn feed_text(&mut self, text: &str) -> (payloads: Vec<String>)
        ensures
            views(payloads@) == stream_payloads(old(self)@ + text@),
            final(self)@ == stream_rest(old(self)@ + text@),
    {
        let mut more = chars_of(text);
        self.pending.append(&mut more);
        let ghost all = self.pending@;
        assert(all.skip(0) =~= all);
        let mut out: Vec<String> = Vec::new();
        let mut start: usize = 0;
        loop
            invariant
                start <= self.pending@.len(),
                self.pending@ == all,
                stream_payloads(all) == views(out@) + stream_payloads(all.skip(start as int)),
                stream_rest(all) == stream_rest(all.skip(start as int)),
            ensures
                start <= self.pending@.len(),
                self.pending@ == all,
                stream_payloads(all) == views(out@),
                stream_rest(all) == all.skip(start as int),
            decreases all.len() - start,
        {
            let mut j: usize = start;
            while j < self.pending.len() && self.pending[j] != '\n'
                invariant
                    start <= j <= self.pending@.len(),
                    self.pending@ == all,
                    forall|k: int| start <= k < j ==> all[k] != '\n',
                decreases self.pending@.len() - j,
            {
                j = j + 1;
            }
            let ghost s = all.skip(start as int);
            proof {
                assert forall|k: int| 0 <= k < j - start implies s[k] != '\n' by {
                    assert(s[k] == all[start + k]);
                }
                if j < all.len() {
                    assert(s[j - start] == all[j as int]);
                }
                lemma_line_len_exact(s, j - start);
            }
            if j == self.pending.len() {
                assert(views(out@) + seq![] =~= views(out@));
                break;
            }
            proof {
                assert(s.take(j - start) =~= all.subrange(start as int, j as int));
                assert(s.skip(j - start + 1) =~= all.skip(j + 1));
            }
            let t = trim_range(&self.pending, start, j);
            match Self::payload_of_trimmed(&t) {
                Some(p) => {
                    let ghost before = out@;
                    out.push(string_from_chars(&p));
                    assert(views(out@) =~= views(before) + seq![p@]);
                },
                None => {},
            }
            start = j + 1;
        }
        let len: usize = self.pending.len();
        self.pending = copy_range(&self.pending, start, len);
        assert(self.pending@ =~= all.skip(start as int));
        out
    }

    /// Takes the next network chunk, decodes it as UTF-8 (lossily, chunk by
    /// chunk) and feeds the text.
    pub fn feed_bytes(&mut self, chunk: &[u8]) -> (payloads: Vec<String>)
        ensures
            views(payloads@) == stream_payloads(old(self)@ + utf8_lossy(chunk@)),
            final(self)@ == stream_rest(old(self)@ + utf8_lossy(chunk@)),
            valid_utf8(chunk@) ==> views(payloads@) == stream_payloads(old(self)@ + decode_utf8(chunk@))
                && final(self)@ == stream_rest(old(self)@ + decode_utf8(chunk@)),
    {
        let text = decode_lossy(chunk);
        self.feed_text(text.as_str())
    }

    /// The unfinished line kept so far.
    pub fn pending_text(&self) -> (s: String)
        ensures
            s@ == self@,
    {
        string_from_chars(&self.pending)
    }
}

} // verus!
