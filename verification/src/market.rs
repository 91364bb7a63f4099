//! Exchange endpoints: Bybit REST and stream URLs, the testnet switch, the
//! order-book topic keys of the Bybit stream, and the Binance stream URL.
use vstd::prelude::*;
use crate::text::{ascii_lower, eq_ignore_ascii_case, span_equals, str_equal};

verus! {

/// Base URL of the Bybit REST API, testnet or mainnet.
pub fn public_base(testnet: bool) -> (url: &'static str)
    ensures
        testnet ==> url@ == "https://api-testnet.bybit.com"@,
        !testnet ==> url@ == "https://api.bybit.com"@,
{
    if testnet {
        "https://api-testnet.bybit.com"
    } else {
        "https://api.bybit.com"
    }
}

/// URL of the Bybit public linear stream, testnet or mainnet.
pub fn public_stream_url(testnet: bool) -> (url: &'static str)
    ensures
        testnet ==> url@ == "wss://stream-testnet.bybit.com/v5/public/linear"@,
        !testnet ==> url@ == "wss://stream.bybit.com/v5/public/linear"@,
{
    if testnet {
        "wss://stream-testnet.bybit.com/v5/public/linear"
    } else {
        "wss://stream.bybit.com/v5/public/linear"
    }
}

/// A testnet switch value turns testnet on: `1`, or `true` in any ASCII case.
pub fn testnet_flag(value: &str) -> (on: bool)
    ensures
        on == (value@ == "1"@ || ascii_lower(value@) == ascii_lower("true"@)),
{
    str_equal(value, "1") || eq_ignore_ascii_case(value, "true")
}

/// The characters after the last `.` (all of them when there is none).
pub open spec fn last_segment(s: Seq<char>) -> Seq<char>
    decreases s.len(),
{
    if s.len() == 0 {
        s
    } else if s.last() == '.' {
        Seq::empty()
    } else {
        last_segment(s.drop_last()).push(s.last())
    }
}

/// The symbol of a top-of-book topic `orderbook.1.<symbol>`: the text after
/// its last `.`; `None` for a topic without that prefix.
pub open spec fn orderbook_symbol_spec(topic: Seq<char>) -> Option<Seq<char>> {
    let prefix = "orderbook.1."@;
    if prefix.len() <= topic.len() && topic.subrange(0, prefix.len() as int) == prefix {
        Some(last_segment(topic))
    } else {
        None
    }
}

/// The symbol named by a top-of-book topic of the public stream.
pub fn orderbook_topic_symbol(topic: &str) -> (r: Option<&str>)
    ensures
        r is Some <==> orderbook_symbol_spec(topic@) is Some,
        r matches Some(sym) ==> orderbook_symbol_spec(topic@) == Some(sym@),
{
    let prefix = "orderbook.1.";
    let pl = prefix.unicode_len();
    let n = topic.unicode_len();
    if pl > n || !span_equals(topic, 0, pl, prefix) {
        return None;
    }
    let mut k: usize = n;
    assert(topic@.subrange(0, n as int) =~= topic@);
    assert(topic@.subrange(n as int, n as int) =~= Seq::<char>::empty());
    while k > 0 && topic.get_char(k - 1) != '.'
        invariant
            k <= n,
            n == topic@.len(),
            last_segment(topic@) == last_segment(topic@.subrange(0, k as int)) + topic@.subrange(
                k as int,
                n as int,
            ),
        decreases k,
    {
        let ghost s = topic@.subrange(0, k as int);
        assert(s.drop_last() =~= topic@.subrange(0, k - 1));
        assert(s.last() == topic@[k - 1]);
        assert(last_segment(s.drop_last()).push(s.last()) + topic@.subrange(k as int, n as int)
            =~= last_segment(topic@.subrange(0, k - 1)) + topic@.subrange(k - 1, n as int));
        k = k - 1;
    }
    let ghost s = topic@.subrange(0, k as int);
    assert(last_segment(s) =~= Seq::<char>::empty()) by {
        if k > 0 {
            assert(s.last() == topic@[k - 1]);
        }
    }
    assert(last_segment(topic@) =~= topic@.subrange(k as int, n as int));
    Some(topic.substring_char(k, n))
}

/// Unicode lower-casing, as `str::to_lowercase` performs it.
pub uninterp spec fn unicode_lower(s: Seq<char>) -> Seq<char>;

/// `str::to_lowercase`. Claimed: the result is the named Unicode
/// lower-casing of the text.
#[verifier::external_body]
fn to_lowercase(s: &str) -> (r: String)
    ensures
        r@ == unicode_lower(s@),
{
    s.to_lowercase()
}

/// The book-ticker stream names of `symbols`, lower-cased, each followed by
/// `@bookTicker`, joined by `/`.
pub open spec fn book_ticker_streams(symbols: Seq<Seq<char>>) -> Seq<char>
    decreases symbols.len(),
{
    if symbols.len() == 0 {
        Seq::empty()
    } else if symbols.len() == 1 {
        unicode_lower(symbols[0]) + "@bookTicker"@
    } else {
        book_ticker_streams(symbols.drop_last()) + "/"@ + unicode_lower(symbols.last())
            + "@bookTicker"@
    }
}

/// The characters of each string.
pub open spec fn string_views(v: Seq<String>) -> Seq<Seq<char>> {
    v.map_values(|s: String| s@)
}

/// URL of the Binance futures combined stream of the book tickers of
/// `symbols`.
pub fn binance_stream_url(symbols: &[String]) -> (url: String)
    ensures
        url@ == "wss://fstream.binance.com/stream?streams="@ + book_ticker_streams(
            string_views(symbols@),
        ),
{
    let prefix = "wss://fstream.binance.com/stream?streams=";
    let mut url = String::from_str(prefix);
    let mut i: usize = 0;
    assert(string_views(symbols@).subrange(0, 0) =~= Seq::<Seq<char>>::empty());
    assert(url@ =~= prefix@ + book_ticker_streams(string_views(symbols@).subrange(0, 0)));
    while i < symbols.len()
        invariant
            i <= symbols@.len(),
            url@ == prefix@ + book_ticker_streams(string_views(symbols@).subrange(0, i as int)),
        decreases symbols.len() - i,
    {
        let ghost before = url@;
        let ghost views = string_views(symbols@);
        let ghost next = views.subrange(0, i + 1);
        assert(next.drop_last() =~= views.subrange(0, i as int));
        assert(next.last() == symbols@[i as int]@);
        if i > 0 {
            url.append("/");
        }
        let lower = to_lowercase(symbols[i].as_str());
        url.append(lower.as_str());
        url.append("@bookTicker");
        proof {
            if i == 0 {
                assert(book_ticker_streams(views.subrange(0, 0)) =~= Seq::<char>::empty());
                assert(url@ =~= prefix@ + book_ticker_streams(next));
            } else {
                assert(url@ =~= prefix@ + book_ticker_streams(next));
            }
        }
        i += 1;
    }
    assert(string_views(symbols@).subrange(0, symbols@.len() as int) =~= string_views(symbols@));
    url
}

/// A top-of-book topic names the symbol after its prefix: for a symbol
/// without dots, `orderbook.1.<symbol>` gives that symbol; a topic that does
/// not start with `orderbook.1.` gives none.
pub proof fn law_orderbook_topic(sym: Seq<char>, topic: Seq<char>)
    ensures
        (forall|i: int| 0 <= i < sym.len() ==> sym[i] != '.') ==> orderbook_symbol_spec(
            "orderbook.1."@ + sym,
        ) == Some(sym),
        !(topic.len() >= "orderbook.1."@.len() && topic.subrange(0, "orderbook.1."@.len() as int)
            == "orderbook.1."@) ==> orderbook_symbol_spec(topic) is None,
{
    reveal_strlit("orderbook.1.");
    let p = "orderbook.1."@;
    let t = p + sym;
    assert(t.subrange(0, p.len() as int) =~= p);
    if forall|i: int| 0 <= i < sym.len() ==> sym[i] != '.' {
        lemma_last_segment_after_dot(p, sym);
    }
}

proof fn lemma_last_segment_after_dot(p: Seq<char>, sym: Seq<char>)
    requires
        p.len() > 0,
        p.last() == '.',
        forall|i: int| 0 <= i < sym.len() ==> sym[i] != '.',
    ensures
        last_segment(p + sym) == sym,
    decreases sym.len(),
{
    if sym.len() == 0 {
        assert(p + sym =~= p);
    } else {
        let s = sym.drop_last();
        assert((p + sym).drop_last() =~= p + s);
        assert((p + sym).last() == sym.last());
        lemma_last_segment_after_dot(p, s);
        assert(s.push(sym.last()) =~= sym);
    }
}

/// The Binance stream list grows one symbol at a time: one symbol gives its
/// lower-cased name with `@bookTicker`, and each further symbol adds `/`
/// and its own stream name at the end.
pub proof fn law_book_ticker_streams(symbols: Seq<Seq<char>>, sym: Seq<char>)
    ensures
        book_ticker_streams(Seq::<Seq<char>>::empty()).len() == 0,
        book_ticker_streams(seq![sym]) == unicode_lower(sym) + "@bookTicker"@,
        symbols.len() > 0 ==> book_ticker_streams(symbols.push(sym)) == book_ticker_streams(symbols)
            + "/"@ + unicode_lower(sym) + "@bookTicker"@,
{
    assert(symbols.push(sym).drop_last() =~= symbols);
}

} // verus!
