//! The web address of the signaling socket: that of the server with the scheme
//! of a socket, its path, and who one is in the query.
use vstd::prelude::*;
#[allow(unused_imports)]
use vstd::utf8::{encode_utf8, is_ascii_chars, is_ascii_chars_encode_utf8};

use crate::text::same;

verus! {

/// A web address that parsed.
#[verifier::external_type_specification]
#[verifier::external_body]
pub struct ExUrl(url::Url);

/// The text of an address (`url::Url::as_str`). Two addresses with one text are
/// the same.
pub uninterp spec fn url_text(u: url::Url) -> Seq<char>;

/// The text of the address that `url::Url::parse` finds, or its complaint.
pub uninterp spec fn parsed_url(s: Seq<char>) -> Result<Seq<char>, Seq<char>>;

/// An address with another scheme (`url::Url::set_scheme`); nothing where the
/// scheme is refused.
pub uninterp spec fn url_with_scheme(url: Seq<char>, scheme: Seq<char>) -> Option<Seq<char>>;

// ---- the notation of forms ----

/// The upper-case hexadecimal digit of a number below sixteen.
pub open spec fn hex_digit(n: int) -> char {
    if n < 10 {
        (48 + n) as char
    } else {
        (55 + n) as char
    }
}

/// Whether a byte stands for itself: a letter, a digit, or one of `*-._`.
pub open spec fn is_plain_byte(b: u8) -> bool {
    ||| 48 <= b <= 57
    ||| 65 <= b <= 90
    ||| 97 <= b <= 122
    ||| b == 42 || b == 45 || b == 46 || b == 95
}

/// A byte in the notation of forms: itself, `+` for a space, or `%` and its two
/// hexadecimal digits.
pub open spec fn form_byte(b: u8) -> Seq<char> {
    if is_plain_byte(b) {
        seq![b as char]
    } else if b == 32 {
        seq!['+']
    } else {
        seq!['%', hex_digit(b as int / 16), hex_digit(b as int % 16)]
    }
}

/// Bytes in the notation of forms.
pub open spec fn form_bytes(b: Seq<u8>) -> Seq<char>
    decreases b.len(),
{
    if b.len() == 0 {
        Seq::empty()
    } else {
        form_bytes(b.drop_last()) + form_byte(b.last())
    }
}

/// A text in the notation of forms: its UTF-8 bytes.
pub open spec fn form_encoded(s: Seq<char>) -> Seq<char> {
    form_bytes(encode_utf8(s))
}

/// Escaping leaves no `#` and makes at most three characters of a byte.
proof fn lemma_form_bytes(b: Seq<u8>)
    ensures
        form_bytes(b).len() <= 3 * b.len(),
        forall|i: int| 0 <= i < form_bytes(b).len() ==> form_bytes(b)[i] != '#',
    decreases b.len(),
{
    if b.len() > 0 {
        lemma_form_bytes(b.drop_last());
        let front = form_bytes(b.drop_last());
        let last = form_byte(b.last());
        assert forall|i: int| 0 <= i < last.len() implies last[i] != '#' by {
            assert(hex_digit(b.last() as int / 16) != '#');
            assert(hex_digit(b.last() as int % 16) != '#');
        }
        assert forall|i: int| 0 <= i < form_bytes(b).len() implies form_bytes(b)[i] != '#' by {
            if i >= front.len() {
                assert(form_bytes(b)[i] == last[i - front.len()]);
            }
        }
    }
}

/// A character has at most four bytes.
proof fn lemma_utf8_len(s: Seq<char>)
    ensures
        encode_utf8(s).len() <= 4 * s.len(),
    decreases s.len(),
{
    if s.len() > 0 {
        lemma_utf8_len(s.drop_first());
    }
}

/// Escaping leaves no `#` and makes at most twelve characters of one.
proof fn lemma_form_encoded(s: Seq<char>)
    ensures
        form_encoded(s).len() <= 12 * s.len(),
        forall|i: int| 0 <= i < form_encoded(s).len() ==> form_encoded(s)[i] != '#',
{
    lemma_utf8_len(s);
    lemma_form_bytes(encode_utf8(s));
}

/// Bytes that stand for themselves are not escaped.
proof fn lemma_plain_bytes(b: Seq<u8>)
    requires
        forall|i: int| 0 <= i < b.len() ==> is_plain_byte(#[trigger] b[i]),
    ensures
        form_bytes(b) == Seq::new(b.len(), |i: int| b[i] as char),
    decreases b.len(),
{
    let text = Seq::new(b.len(), |i: int| b[i] as char);
    if b.len() > 0 {
        lemma_plain_bytes(b.drop_last());
        assert(is_plain_byte(b[b.len() - 1]));
    }
    assert(form_bytes(b) =~= text);
}

/// Whether a character stands for itself: a letter, a digit, or one of `*-._`.
pub open spec fn is_plain_char(c: char) -> bool {
    ||| '0' <= c <= '9'
    ||| 'A' <= c <= 'Z'
    ||| 'a' <= c <= 'z'
    ||| c == '*' || c == '-' || c == '.' || c == '_'
}

/// A text of letters, digits and `*-._` is not escaped.
pub proof fn plain_texts_stay(s: Seq<char>)
    requires
        forall|i: int| 0 <= i < s.len() ==> is_plain_char(#[trigger] s[i]),
    ensures
        form_encoded(s) == s,
{
    let b = encode_utf8(s);
    assert(is_ascii_chars(s)) by {
        assert forall|i: int| 0 <= i < s.len() implies '\0' <= #[trigger] s[i] <= '\u{7f}' by {
            assert(is_plain_char(s[i]));
        }
    }
    is_ascii_chars_encode_utf8(s);
    assert forall|i: int| 0 <= i < b.len() implies is_plain_byte(#[trigger] b[i]) && b[i] as char
        == s[i] by {
        assert(is_plain_char(s[i]));
    }
    lemma_plain_bytes(b);
    assert(form_encoded(s) =~= s);
}

// ---- the parts of an address ----

/// Where a character occurs first; the length where it does not.
pub open spec fn place_of(s: Seq<char>, c: char) -> int
    decreases s.len(),
{
    if s.len() == 0 || s[0] == c {
        0
    } else {
        1 + place_of(s.drop_first(), c)
    }
}

/// Whether a text starts with another.
pub open spec fn starts(s: Seq<char>, head: Seq<char>) -> bool {
    head.len() <= s.len() && s.take(head.len() as int) == head
}

/// The scheme of an address: what stands before the first colon.
pub open spec fn scheme_in(url: Seq<char>) -> Seq<char> {
    url.take(place_of(url, ':'))
}

/// How long the scheme of a socket is, with the slashes behind it.
pub open spec fn head_len(url: Seq<char>) -> int {
    if starts(url, "ws://"@) {
        5
    } else {
        6
    }
}

/// The scheme, host and port of a socket: what stands before the path.
pub open spec fn origin_of(url: Seq<char>) -> Seq<char> {
    url.take(head_len(url) + place_of(url.skip(head_len(url)), '/'))
}

/// The fragment, from its `#` on.
pub open spec fn fragment_of(url: Seq<char>) -> Seq<char> {
    url.skip(place_of(url, '#'))
}

/// What stands before the fragment.
pub open spec fn before_fragment(url: Seq<char>) -> Seq<char> {
    url.take(place_of(url, '#'))
}

/// The query, from its `?` on.
pub open spec fn query_of(url: Seq<char>) -> Seq<char> {
    before_fragment(url).skip(place_of(before_fragment(url), '?'))
}

/// What stands before the query.
pub open spec fn before_query(url: Seq<char>) -> Seq<char> {
    before_fragment(url).take(place_of(before_fragment(url), '?'))
}

/// Whether a text is the address of a socket: it starts with the scheme of one,
/// and its host and port hold nothing that starts a query or a fragment.
pub open spec fn is_socket(url: Seq<char>) -> bool {
    &&& starts(url, "ws://"@) || starts(url, "wss://"@)
    &&& place_of(origin_of(url), '?') == origin_of(url).len()
    &&& place_of(origin_of(url), '#') == origin_of(url).len()
}

// ---- what is done to an address ----

/// A socket with another path.
pub open spec fn with_path(url: Seq<char>, path: Seq<char>) -> Seq<char> {
    origin_of(url) + path + query_of(url) + fragment_of(url)
}

/// An address with an empty query.
pub open spec fn without_pairs(url: Seq<char>) -> Seq<char> {
    before_query(url) + "?"@ + fragment_of(url)
}

/// An address with one more pair, which is escaped already, in its query.
pub open spec fn with_pair(url: Seq<char>, key: Seq<char>, value: Seq<char>) -> Seq<char> {
    before_fragment(url) + (if query_of(url).len() == 0 {
        "?"@
    } else if query_of(url).len() == 1 {
        ""@
    } else {
        "&"@
    }) + key + "="@ + value + fragment_of(url)
}

/// A path that needs no escaping: a slash and small letters.
pub open spec fn is_plain_path(path: Seq<char>) -> bool {
    &&& path.len() > 0
    &&& path[0] == '/'
    &&& forall|i: int| 0 < i < path.len() ==> 'a' <= #[trigger] path[i] <= 'z'
}

/// `url::Url::parse`.
#[verifier::external_body]
fn parse_url(s: &str) -> (r: Result<url::Url, String>)
    ensures
        parsed_url(s@) == (match r {
            Ok(u) => Ok::<Seq<char>, Seq<char>>(url_text(u)),
            Err(e) => Err::<Seq<char>, Seq<char>>(e@),
        }),
{
    match url::Url::parse(s) {
        Ok(u) => Ok(u),
        Err(e) => Err(e.to_string()),
    }
}

/// `url::Url::as_str`: the text of an address.
#[verifier::external_body]
fn text_of(u: &url::Url) -> (r: String)
    ensures
        r@ == url_text(*u),
{
    u.as_str().to_owned()
}

/// `url::Url::scheme`: what stands before the first colon.
#[verifier::external_body]
fn scheme_of(u: &url::Url) -> (r: String)
    ensures
        r@ == scheme_in(url_text(*u)),
{
    u.scheme().to_owned()
}

/// `url::Url::set_scheme`, for the scheme of a socket; whether it was taken. The
/// schemes of the web are exchanged for those of sockets and nothing else
/// changes: the default ports are the same. `url` counts an address in 32 bits.
#[verifier::external_body]
fn set_scheme(u: &mut url::Url, scheme: &str) -> (r: bool)
    requires
        scheme@ == "ws"@ || scheme@ == "wss"@,
        url_text(*old(u)).len() + scheme@.len() <= u32::MAX,
    ensures
        match url_with_scheme(url_text(*old(u)), scheme@) {
            Some(t) => r && url_text(*final(u)) == t,
            None => !r && url_text(*final(u)) == url_text(*old(u)),
        },
        r ==> starts(url_text(*final(u)), scheme@ + "://"@) && is_socket(url_text(*final(u))),
        url_text(*final(u)).len() <= url_text(*old(u)).len() + scheme@.len(),
        scheme_in(url_text(*old(u))) == "http"@ || scheme_in(url_text(*old(u))) == "https"@ ==> r,
        (scheme_in(url_text(*old(u))) == "http"@ && scheme@ == "ws"@) || (scheme_in(
            url_text(*old(u)),
        ) == "https"@ && scheme@ == "wss"@) ==> url_text(*final(u)) == scheme@ + url_text(
            *old(u),
        ).skip(scheme_in(url_text(*old(u))).len() as int),
{
    u.set_scheme(scheme).is_ok()
}

/// `url::Url::set_path` on a socket, for a path that needs no escaping.
#[verifier::external_body]
fn set_path(u: &mut url::Url, path: &str)
    requires
        is_socket(url_text(*old(u))),
        is_plain_path(path@),
        url_text(*old(u)).len() + path@.len() <= u32::MAX,
    ensures
        url_text(*final(u)) == with_path(url_text(*old(u)), path@),
{
    u.set_path(path);
}

/// `clear` of `url::Url::query_pairs_mut` on a socket.
#[verifier::external_body]
fn clear_pairs(u: &mut url::Url)
    requires
        is_socket(url_text(*old(u))),
        url_text(*old(u)).len() + 1 <= u32::MAX,
    ensures
        url_text(*final(u)) == without_pairs(url_text(*old(u))),
{
    u.query_pairs_mut().clear();
}

/// `append_pair` of `url::Url::query_pairs_mut` on a socket: the key and the value
/// in the notation of forms. Escaping makes at most twelve characters of one.
#[verifier::external_body]
fn append_pair(u: &mut url::Url, key: &str, value: &str)
    requires
        is_socket(url_text(*old(u))),
        url_text(*old(u)).len() + 12 * (key@.len() + value@.len()) + 2 <= u32::MAX,
    ensures
        url_text(*final(u)) == with_pair(
            url_text(*old(u)),
            form_encoded(key@),
            form_encoded(value@),
        ),
{
    u.query_pairs_mut().append_pair(key, value);
}

// ---- where a character occurs ----

/// A place is in the text or at its end, and the character is not before it.
proof fn lemma_place(s: Seq<char>, c: char)
    ensures
        0 <= place_of(s, c) <= s.len(),
        place_of(s, c) < s.len() ==> s[place_of(s, c)] == c,
        place_of(s.take(place_of(s, c)), c) == place_of(s, c),
        forall|i: int| 0 <= i < place_of(s, c) ==> s[i] != c,
    decreases s.len(),
{
    if s.len() > 0 && s[0] != c {
        let rest = s.drop_first();
        lemma_place(rest, c);
        let n = place_of(s, c);
        assert(s.take(n).drop_first() =~= rest.take(n - 1));
        assert forall|i: int| 0 <= i < n implies s[i] != c by {
            if i > 0 {
                assert(s[i] == rest[i - 1]);
            }
        }
    }
}

/// A character that is nowhere before a place and stands at it, or nowhere at
/// all, occurs there first.
proof fn lemma_place_is(s: Seq<char>, c: char, n: int)
    requires
        0 <= n <= s.len(),
        n < s.len() ==> s[n] == c,
        forall|i: int| 0 <= i < n ==> s[i] != c,
    ensures
        place_of(s, c) == n,
{
    lemma_place(s, c);
    let m = place_of(s, c);
    if m < n {
        assert(s[m] != c);
    }
}

/// An address whose scheme, host and port are those of a socket is one.
proof fn lemma_same_origin(url: Seq<char>, other: Seq<char>)
    requires
        is_socket(url),
        starts(other, origin_of(url)),
        other.len() > origin_of(url).len(),
        other[origin_of(url).len() as int] == '/',
    ensures
        is_socket(other),
        origin_of(other) == origin_of(url),
{
    reveal_strlit("ws://");
    reveal_strlit("wss://");
    let n = head_len(url);
    let o = origin_of(url);
    lemma_place(url.skip(n), '/');
    assert(n <= o.len() <= url.len());
    assert forall|i: int| 0 <= i < o.len() implies other[i] == url[i] by {
        assert(other.take(o.len() as int)[i] == o[i]);
    }
    if starts(url, "ws://"@) {
        assert(other.take(5) =~= url.take(5));
    } else {
        assert(url.take(6)[2] == 's');
        assert(other.take(6) =~= url.take(6));
        if starts(other, "ws://"@) {
            assert(other.take(5)[2] == ':');
        }
    }
    assert(head_len(other) == n);
    let rest = other.skip(n);
    let m = o.len() - n;
    assert forall|i: int| 0 <= i < m implies rest[i] != '/' by {
        assert(rest[i] == url.skip(n)[i]);
    }
    lemma_place_is(rest, '/', m);
    assert(origin_of(other) =~= o);
}

/// The parts of an address that is put together of what stands before its
/// query, the query, and the fragment.
proof fn lemma_parts(head: Seq<char>, query: Seq<char>, fragment: Seq<char>)
    requires
        forall|i: int| 0 <= i < head.len() ==> head[i] != '#' && head[i] != '?',
        forall|i: int| 0 <= i < query.len() ==> query[i] != '#',
        query.len() > 0 ==> query[0] == '?',
        fragment.len() > 0 ==> fragment[0] == '#',
    ensures
        before_fragment(head + query + fragment) == head + query,
        before_query(head + query + fragment) == head,
        query_of(head + query + fragment) == query,
        fragment_of(head + query + fragment) == fragment,
{
    let all = head + query + fragment;
    let body = head + query;
    assert forall|i: int| 0 <= i < body.len() implies all[i] != '#' by {
        if i >= head.len() {
            assert(all[i] == query[i - head.len()]);
        }
    }
    lemma_place_is(all, '#', body.len() as int);
    assert(before_fragment(all) =~= body);
    assert(fragment_of(all) =~= fragment);
    lemma_place_is(body, '?', head.len() as int);
    assert(before_query(all) =~= head);
    assert(query_of(all) =~= query);
}

/// What the parts of a socket hold.
proof fn lemma_socket_parts(url: Seq<char>)
    requires
        is_socket(url),
    ensures
        head_len(url) <= origin_of(url).len() <= url.len(),
        starts(url, origin_of(url)),
        forall|i: int|
            0 <= i < origin_of(url).len() ==> origin_of(url)[i] != '#' && origin_of(url)[i] != '?',
        forall|i: int| 0 <= i < query_of(url).len() ==> query_of(url)[i] != '#',
        query_of(url).len() > 0 ==> query_of(url)[0] == '?',
        fragment_of(url).len() > 0 ==> fragment_of(url)[0] == '#',
        origin_of(url).len() + query_of(url).len() + fragment_of(url).len() <= url.len(),
{
    reveal_strlit("ws://");
    reveal_strlit("wss://");
    let o = origin_of(url);
    let body = before_fragment(url);
    lemma_place(url.skip(head_len(url)), '/');
    lemma_place(o, '?');
    lemma_place(o, '#');
    lemma_place(url, '#');
    lemma_place(body, '?');
    assert(url.take(o.len() as int) =~= o);
    assert(place_of(url, '#') >= o.len()) by {
        if place_of(url, '#') < o.len() {
            assert(o[place_of(url, '#')] == '#');
        }
    }
    assert(place_of(body, '?') >= o.len()) by {
        if place_of(body, '?') < o.len() {
            assert(o[place_of(body, '?')] == '?');
        }
    }
}

/// Another path leaves a socket a socket.
proof fn lemma_path_stays(url: Seq<char>, path: Seq<char>)
    requires
        is_socket(url),
        is_plain_path(path),
    ensures
        is_socket(with_path(url, path)),
        origin_of(with_path(url, path)) == origin_of(url),
        with_path(url, path).len() <= url.len() + path.len(),
{
    lemma_socket_parts(url);
    let o = origin_of(url);
    let new = with_path(url, path);
    assert(new.take(o.len() as int) =~= o);
    lemma_same_origin(url, new);
}

// ---- the address to dial ----

/// The scheme of the socket that belongs to the scheme of a server.
pub open spec fn socket_scheme(scheme: Seq<char>) -> Seq<char> {
    if scheme == "https"@ {
        "wss"@
    } else {
        "ws"@
    }
}

/// The address of the socket of a server whose address has the scheme of a
/// socket already: another path, and nothing in the query but who one is and
/// which version one has. A fragment stays.
pub open spec fn dialed(url: Seq<char>, token: Seq<char>, version: Seq<char>) -> Seq<char> {
    origin_of(url) + "/ws?token="@ + form_encoded(token) + "&version="@ + form_encoded(version)
        + fragment_of(url)
}

/// Why there is no socket to dial, or its address.
pub open spec fn socket_address(
    server_url: Seq<char>,
    token: Option<Seq<char>>,
    version: Seq<char>,
) -> Result<Seq<char>, Seq<char>> {
    match parsed_url(server_url) {
        Err(e) => Err(e),
        Ok(url) => match url_with_scheme(url, socket_scheme(scheme_in(url))) {
            None => Err("bad scheme"@),
            Some(socket) => match token {
                None => Err("not logged in — run `sociacli login`"@),
                Some(t) => Ok(dialed(socket, t, version)),
            },
        },
    }
}

/// Whether an address with everything added to it stays below the four
/// gigabytes that `url` can count.
pub open spec fn countable(
    server_url: Seq<char>,
    token: Option<Seq<char>>,
    version: Seq<char>,
) -> bool {
    parsed_url(server_url) matches Ok(url) ==> url.len() + 12 * (version.len() + (match token {
        Some(t) => t.len(),
        None => 0,
    })) + 256 <= u32::MAX
}

/// Whether an address is one of the web.
pub open spec fn is_web(url: Seq<char>) -> bool {
    scheme_in(url) == "http"@ || scheme_in(url) == "https"@
}

/// An address of the web with the scheme of its socket.
pub open spec fn web_socket(url: Seq<char>) -> Seq<char> {
    socket_scheme(scheme_in(url)) + url.skip(scheme_in(url).len() as int)
}

/// Whether a result is the address of the socket of a server, whose own address
/// has parsed. A server on the web is refused only to those who are not logged
/// in.
pub open spec fn is_dialed(
    url: Seq<char>,
    token: Option<Seq<char>>,
    version: Seq<char>,
    r: Result<String, String>,
) -> bool {
    &&& match url_with_scheme(url, socket_scheme(scheme_in(url))) {
        None => r is Err && r->Err_0@ == "bad scheme"@,
        Some(socket) => match token {
            None => r is Err && r->Err_0@ == "not logged in — run `sociacli login`"@,
            Some(t) => r is Ok && r->Ok_0@ == dialed(socket, t, version),
        },
    }
    &&& r is Ok ==> starts(r->Ok_0@, socket_scheme(scheme_in(url)) + "://"@)
    &&& is_web(url) ==> url_with_scheme(url, socket_scheme(scheme_in(url))) == Some(web_socket(url))
}

/// The view of an optional text.
pub open spec fn opt_str(s: Option<&str>) -> Option<Seq<char>> {
    match s {
        Some(s) => Some(s@),
        None => None,
    }
}

/// What stands before the query of an address holds nothing that starts one.
proof fn lemma_before_query(url: Seq<char>)
    ensures
        forall|i: int|
            0 <= i < before_query(url).len() ==> before_query(url)[i] != '#' && before_query(
                url,
            )[i] != '?',
        fragment_of(url).len() > 0 ==> fragment_of(url)[0] == '#',
        before_query(url).len() + fragment_of(url).len() <= url.len(),
{
    lemma_place(url, '#');
    lemma_place(before_fragment(url), '?');
}

/// A pair in a query, which is escaped.
pub open spec fn pair_text(key: Seq<char>, value: Seq<char>) -> Seq<char> {
    form_encoded(key) + "="@ + form_encoded(value)
}

/// The keys of the query are not escaped.
proof fn lemma_keys()
    ensures
        form_encoded("token"@) == "token"@,
        form_encoded("version"@) == "version"@,
        "/ws"@ + "?"@ + "token"@ + "="@ == "/ws?token="@,
        "&"@ + "version"@ + "="@ == "&version="@,
{
    reveal_strlit("token");
    reveal_strlit("version");
    reveal_strlit("/ws");
    reveal_strlit("?");
    reveal_strlit("=");
    reveal_strlit("&");
    reveal_strlit("/ws?token=");
    reveal_strlit("&version=");
    assert("/ws"@ + "?"@ + "token"@ + "="@ =~= "/ws?token="@);
    assert("&"@ + "version"@ + "="@ =~= "&version="@);
    assert forall|i: int| 0 <= i < "token"@.len() implies is_plain_char(#[trigger] "token"@[i]) by {
        assert("token"@ =~= seq!['t', 'o', 'k', 'e', 'n']);
    }
    assert forall|i: int| 0 <= i < "version"@.len() implies is_plain_char(
        #[trigger] "version"@[i],
    ) by {
        assert("version"@ =~= seq!['v', 'e', 'r', 's', 'i', 'o', 'n']);
    }
    plain_texts_stay("token"@);
    plain_texts_stay("version"@);
}

/// The address to dial has the scheme of its socket.
proof fn lemma_dialed(url: Seq<char>, scheme: Seq<char>, token: Seq<char>, version: Seq<char>)
    requires
        is_socket(url),
        scheme == "ws"@ || scheme == "wss"@,
        starts(url, scheme + "://"@),
    ensures
        starts(dialed(url, token, version), scheme + "://"@),
{
    reveal_strlit("ws");
    reveal_strlit("wss");
    reveal_strlit("://");
    reveal_strlit("ws://");
    reveal_strlit("wss://");
    lemma_socket_parts(url);
    let n = scheme.len() as int + 3;
    assert("ws"@ + "://"@ =~= "ws://"@);
    assert("wss"@ + "://"@ =~= "wss://"@);
    if scheme == "wss"@ && starts(url, "ws://"@) {
        assert(url.take(6)[2] == 's');
        assert(url.take(5)[2] == ':');
    }
    assert(n <= origin_of(url).len());
    assert(dialed(url, token, version).take(n) =~= url.take(n));
}

/// Puts who one is into the query of a socket, in place of what was there.
fn introduce(u: &mut url::Url, token: &str, version: &str)
    requires
        is_socket(url_text(*old(u))),
        starts(before_query(url_text(*old(u))), origin_of(url_text(*old(u))) + "/"@),
        url_text(*old(u)).len() + 12 * (token@.len() + version@.len()) + 200 <= u32::MAX,
    ensures
        url_text(*final(u)) == before_query(url_text(*old(u))) + "?"@ + pair_text(
            "token"@,
            token@,
        ) + "&"@ + pair_text("version"@, version@) + fragment_of(url_text(*old(u))),
{
    let ghost t = url_text(*u);
    let ghost o = origin_of(t);
    let ghost head = before_query(t);
    let ghost f = fragment_of(t);
    let ghost pair = pair_text("token"@, token@);
    proof {
        reveal_strlit("/");
        reveal_strlit("?");
        reveal_strlit("=");
        reveal_strlit("");
        reveal_strlit("token");
        reveal_strlit("version");
        lemma_before_query(t);
        lemma_parts(head, "?"@, f);
        assert(head.take(o.len() as int + 1)[o.len() as int] == '/');
        assert(head.take(o.len() as int) =~= head.take(o.len() as int + 1).take(o.len() as int));
        assert(head.take(o.len() as int) =~= o);
    }
    clear_pairs(u);
    proof {
        let t3 = url_text(*u);
        assert(t3.take(o.len() as int) =~= o);
        assert(t3[o.len() as int] == '/');
        lemma_same_origin(t, t3);
    }
    append_pair(u, "token", token);
    proof {
        let t4 = url_text(*u);
        let query = "?"@ + pair;
        lemma_form_encoded("token"@);
        lemma_form_encoded(token@);
        assert(t4 =~= head + query + f);
        assert forall|i: int| 0 <= i < query.len() implies query[i] != '#' by {
            let n = form_encoded("token"@).len();
            if 1 <= i <= n {
                assert(query[i] == form_encoded("token"@)[i - 1]);
            } else if i > n + 1 {
                assert(query[i] == form_encoded(token@)[i - n - 2]);
            }
        }
        lemma_parts(head, query, f);
        assert(t4.take(o.len() as int) =~= o);
        assert(t4[o.len() as int] == '/');
        lemma_same_origin(t, t4);
    }
    append_pair(u, "version", version);
    assert(url_text(*u) =~= head + "?"@ + pair + "&"@ + pair_text("version"@, version@) + f);
}

/// Makes the address of the socket of the address of a server.
fn dial(url: url::Url, token: Option<&str>, version: &str) -> (r: Result<String, String>)
    requires
        url_text(url).len() + 12 * (version@.len() + (match token {
            Some(t) => t@.len(),
            None => 0,
        })) + 256 <= u32::MAX,
    ensures
        is_dialed(url_text(url), opt_str(token), version@, r),
{
    let mut u = url;
    proof {
        reveal_strlit("/ws");
        reveal_strlit("ws");
        reveal_strlit("wss");
        reveal_strlit("http");
        reveal_strlit("https");
        assert("http"@.len() != "https"@.len());
    }
    let scheme = scheme_of(&u);
    let socket = if same(scheme.as_str(), "https") {
        "wss"
    } else {
        "ws"
    };
    if !set_scheme(&mut u, socket) {
        return Err("bad scheme".to_owned());
    }
    let ghost t1 = url_text(u);
    let ghost head = origin_of(t1) + "/ws"@;
    proof {
        lemma_socket_parts(t1);
        lemma_path_stays(t1, "/ws"@);
        lemma_parts(head, query_of(t1), fragment_of(t1));
    }
    set_path(&mut u, "/ws");
    let token = match token {
        Some(t) => t,
        None => {
            return Err("not logged in — run `sociacli login`".to_owned());
        },
    };
    proof {
        reveal_strlit("/");
        assert(head.take(origin_of(t1).len() as int + 1) =~= origin_of(t1) + "/"@);
    }
    introduce(&mut u, token, version);
    proof {
        lemma_dialed(t1, socket@, token@, version@);
        lemma_keys();
        assert(url_text(u) =~= origin_of(t1) + ("/ws"@ + "?"@ + "token"@ + "="@) + form_encoded(
            token@,
        ) + ("&"@ + "version"@ + "="@) + form_encoded(version@) + fragment_of(t1));
    }
    Ok(text_of(&u))
}

/// Whether a result is what the address of a server and a token come to.
pub open spec fn is_socket_of(
    server_url: Seq<char>,
    token: Option<Seq<char>>,
    version: Seq<char>,
    r: Result<String, String>,
) -> bool {
    &&& socket_address(server_url, token, version) == (match r {
        Ok(u) => Ok::<Seq<char>, Seq<char>>(u@),
        Err(e) => Err::<Seq<char>, Seq<char>>(e@),
    })
    &&& parsed_url(server_url) matches Ok(url) ==> is_dialed(url, token, version, r)
}

/// Makes the address of the socket of a server.
pub(crate) fn socket_url(server_url: &str, token: Option<&str>, version: &str) -> (r: Result<
    String,
    String,
>)
    requires
        countable(server_url@, opt_str(token), version@),
    ensures
        is_socket_of(server_url@, opt_str(token), version@, r),
{
    match parse_url(server_url) {
        Ok(url) => dial(url, token, version),
        Err(e) => Err(e),
    }
}

/// Says whether an address with everything added to it stays countable.
pub fn is_countable(server_url: &str, token: Option<&str>, version: &str) -> (r: bool)
    ensures
        r == countable(server_url@, opt_str(token), version@),
{
    match parse_url(server_url) {
        Ok(url) => {
            let count: usize = text_of(&url).as_str().unicode_len();
            let added: usize = match token {
                Some(t) => t.unicode_len(),
                None => 0,
            };
            let known: usize = version.unicode_len();
            let all: u128 = count as u128 + 12 * (known as u128 + added as u128) + 256;
            all <= u32::MAX as u128
        },
        Err(_) => true,
    }
}

} // verus!
