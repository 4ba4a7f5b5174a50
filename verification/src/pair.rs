//! Canonical `BASE/QUOTE` pairs for exchange symbols.
//!
//! A symbol is split in one of two ways. Where an exchange's symbols follow
//! fixed rules, the rules of the `crypto_pair` crate are used: this module
//! decides which symbols may be handed to it, hands them over, and turns a
//! missing answer into an error. Huobi's spot symbols carry no separator;
//! they are split here against a table of quote currencies that the caller
//! hands in. Either way the pair depends on nothing but the arguments.

use vstd::prelude::*;
use crate::message::ParseError;
use crate::text::{
    ascii_only, begins_with, chars_of, contains_char, contains_text, ends_with, find_char,
    has_sub, index_of, is_ascii_only, is_digit, joined, same_text, string_of_range,
    string_views,
};
use crate::decimal::is_sign;

verus! {

/// The pair that `crypto_pair` derives from a symbol by its fixed rules.
pub uninterp spec fn pair_name(symbol: Seq<char>, exchange: Seq<char>) -> Option<Seq<char>>;

/// The upper-case form of a text.
pub uninterp spec fn uppercase_of(text: Seq<char>) -> Seq<char>;

/// Whether the last two characters read as a signed integer.
pub open spec fn ends_in_number(s: Seq<char>) -> bool {
    &&& s.len() >= 2
    &&& is_digit(s[s.len() - 1])
    &&& (is_digit(s[s.len() - 2]) || is_sign(s[s.len() - 2]))
}

/// The KuCoin symbols: a swap suffix, or ASCII text that is either a dated
/// future (four or more characters ending in a number) or holds a hyphen.
pub open spec fn kucoin_shape(s: Seq<char>) -> bool {
    ||| "USDM"@.is_suffix_of(s)
    ||| "USDTM"@.is_suffix_of(s)
    ||| "USDCM"@.is_suffix_of(s)
    ||| (ascii_only(s) && s.len() >= 2 && if ends_in_number(s) {
        s.len() >= 4
    } else {
        s.contains('-')
    })
}

/// Whether a Bitget symbol carries one of the product-line tags.
pub open spec fn bitget_tagged(s: Seq<char>) -> bool {
    ||| "_SPBL"@.is_suffix_of(s)
    ||| has_sub(s, "_UMCBL"@)
    ||| has_sub(s, "_CMCBL"@)
    ||| has_sub(s, "_DMCBL"@)
}

/// The part of `s` before its first underscore.
pub open spec fn before_underscore(s: Seq<char>) -> Seq<char> {
    s.subrange(0, index_of(s, '_', 0))
}

/// Whether `s` ends in one of the quote currencies that Bitget tags.
pub open spec fn known_quote_suffix(s: Seq<char>) -> bool {
    ||| "USDT"@.is_suffix_of(s)
    ||| "USD"@.is_suffix_of(s)
    ||| "ETH"@.is_suffix_of(s)
    ||| "BTC"@.is_suffix_of(s)
}

/// The Bitget symbols: a tagged symbol needs a known quote before the tag;
/// a symbol that starts with `cmt_` must end in `usdt`.
pub open spec fn bitget_shape(s: Seq<char>) -> bool {
    if bitget_tagged(s) {
        "PERP_CMCBL"@.is_suffix_of(s) || known_quote_suffix(before_underscore(s))
    } else {
        "cmt_"@.is_prefix_of(s) ==> "usdt"@.is_suffix_of(s) && s.len() >= 8
    }
}

/// Huobi's contract symbols, which are split by fixed rules: swaps end in
/// `-USD` or `-USDT`, options hold `-C-` or `-P-`, futures end in one of the
/// four delivery marks. Every other Huobi symbol is a spot symbol.
pub open spec fn huobi_contract_shape(s: Seq<char>) -> bool {
    ||| "-USD"@.is_suffix_of(s)
    ||| "-USDT"@.is_suffix_of(s)
    ||| has_sub(s, "-C-"@)
    ||| has_sub(s, "-P-"@)
    ||| "_CW"@.is_suffix_of(s)
    ||| "_NW"@.is_suffix_of(s)
    ||| "_CQ"@.is_suffix_of(s)
    ||| "_NQ"@.is_suffix_of(s)
}

/// The symbols that are handed to `crypto_pair`: those that it splits by
/// fixed rules and on which it does not panic. Huobi's spot symbols are not
/// among them.
pub open spec fn accepted(symbol: Seq<char>, exchange: Seq<char>) -> bool {
    ||| (exchange == "huobi"@ && huobi_contract_shape(symbol))
    ||| exchange == "zbg"@
    ||| (exchange == "kucoin"@ && kucoin_shape(symbol))
    ||| (exchange == "bitget"@ && bitget_shape(symbol))
}

/// The outcome by fixed rules: the pair that `crypto_pair` derives from an
/// accepted symbol, `UnrecognizedSymbol` where it derives none or the
/// symbol is not accepted.
pub open spec fn fixed_outcome(symbol: Seq<char>, exchange: Seq<char>) -> Result<
    Seq<char>,
    ParseError,
> {
    if accepted(symbol, exchange) {
        outcome_of(pair_name(symbol, exchange))
    } else {
        Err(ParseError::UnrecognizedSymbol)
    }
}

/// The quote currencies of Huobi's spot market that are fixed in the
/// source.
pub open spec fn huobi_fixed_quotes() -> Seq<Seq<char>> {
    seq![
        "brl"@,
        "btc"@,
        "eth"@,
        "eur"@,
        "euroc"@,
        "gbp"@,
        "ht"@,
        "husd"@,
        "rub"@,
        "trx"@,
        "try"@,
        "tusd"@,
        "uah"@,
        "usdc"@,
        "usdd"@,
        "usdt"@,
        "ust"@,
        "ustc"@,
    ]
}

/// A symbol cut into base and quote by the first quote of the table that
/// the symbol ends in.
pub open spec fn split_by_quotes(symbol: Seq<char>, quotes: Seq<Seq<char>>) -> Option<
    (Seq<char>, Seq<char>),
>
    decreases quotes.len(),
{
    if quotes.len() == 0 {
        None
    } else if quotes[0].is_suffix_of(symbol) {
        Some((symbol.subrange(0, symbol.len() - quotes[0].len()), quotes[0]))
    } else {
        split_by_quotes(symbol, quotes.drop_first())
    }
}

/// The pair of a spot symbol under a table of quotes: base and quote in
/// upper case with a slash between, `UnrecognizedSymbol` where the symbol
/// ends in no quote of the table.
pub open spec fn spot_outcome(symbol: Seq<char>, quotes: Seq<Seq<char>>) -> Result<
    Seq<char>,
    ParseError,
> {
    match split_by_quotes(symbol, quotes) {
        Some((base, quote)) => Ok(uppercase_of(base) + "/"@ + uppercase_of(quote)),
        None => Err(ParseError::UnrecognizedSymbol),
    }
}

/// Whether a symbol is split against the table of quotes: the Huobi symbols
/// that are no contract symbols.
pub open spec fn split_by_table(symbol: Seq<char>, exchange: Seq<char>) -> bool {
    exchange == "huobi"@ && !huobi_contract_shape(symbol)
}

/// The pair of a symbol: that of the table for a Huobi spot symbol, that of
/// the fixed rules for every other symbol.
pub open spec fn pair_of(symbol: Seq<char>, exchange: Seq<char>, quotes: Seq<Seq<char>>) -> Result<
    Seq<char>,
    ParseError,
> {
    if split_by_table(symbol, exchange) {
        spot_outcome(symbol, quotes)
    } else {
        fixed_outcome(symbol, exchange)
    }
}

/// The outcome for what the outside crate answered on an accepted symbol.
pub open spec fn outcome_of(answer: Option<Seq<char>>) -> Result<Seq<char>, ParseError> {
    match answer {
        Some(pair) => Ok(pair),
        None => Err(ParseError::UnrecognizedSymbol),
    }
}

/// The view of a normalizer result.
pub open spec fn pair_outcome(r: Result<String, ParseError>) -> Result<Seq<char>, ParseError> {
    match r {
        Ok(pair) => Ok(pair@),
        Err(e) => Err(e),
    }
}

/// `crypto_pair::normalize_pair` on a symbol that it splits by fixed rules:
/// the answer is `pair_name` of the symbol and the exchange. The
/// precondition keeps out the exchanges and symbols on which the outside
/// function panics, and Huobi's spot symbols, for which it would consult a
/// list that it fetches from the exchange.
#[verifier::external_body]
fn outside_pair(symbol: &str, exchange: &str) -> (r: Option<String>)
    requires
        accepted(symbol@, exchange@),
    ensures
        r is Some <==> pair_name(symbol@, exchange@) is Some,
        r matches Some(pair) ==> pair_name(symbol@, exchange@) == Some(pair@),
{
    crypto_pair::normalize_pair(symbol, exchange)
}

/// `str::to_uppercase`: the upper-case form of a text.
#[verifier::external_body]
fn uppercase(text: &str) -> (r: String)
    ensures
        r@ == uppercase_of(text@),
{
    text.to_uppercase()
}

fn has_known_quote(text: &Vec<char>) -> (r: bool)
    ensures
        r == known_quote_suffix(text@),
{
    ends_with(text, "USDT") || ends_with(text, "USD") || ends_with(text, "ETH") || ends_with(
        text,
        "BTC",
    )
}

/// Whether the last two characters read as a signed integer.
pub fn has_number_tail(text: &Vec<char>) -> (r: bool)
    ensures
        r == ends_in_number(text@),
{
    let n = text.len();
    if n < 2 {
        return false;
    }
    let last = text[n - 1];
    let before = text[n - 2];
    '0' <= last && last <= '9' && (('0' <= before && before <= '9') || before == '-' || before
        == '+')
}

fn is_kucoin_shape(text: &Vec<char>) -> (r: bool)
    ensures
        r == kucoin_shape(text@),
{
    if ends_with(text, "USDM") || ends_with(text, "USDTM") || ends_with(text, "USDCM") {
        return true;
    }
    let n = text.len();
    if n < 2 || !is_ascii_only(text) {
        return false;
    }
    if has_number_tail(text) {
        n >= 4
    } else {
        contains_char(text, '-')
    }
}

fn is_bitget_shape(text: &Vec<char>) -> (r: bool)
    ensures
        r == bitget_shape(text@),
{
    let tagged = ends_with(text, "_SPBL") || contains_text(text, "_UMCBL") || contains_text(
        text,
        "_CMCBL",
    ) || contains_text(text, "_DMCBL");
    if tagged {
        if ends_with(text, "PERP_CMCBL") {
            return true;
        }
        let cut = find_char(text, '_', 0);
        let mut head: Vec<char> = Vec::new();
        let mut i: usize = 0;
        while i < cut
            invariant
                i <= cut <= text.len(),
                head@ == text@.subrange(0, i as int),
            decreases cut - i,
        {
            head.push(text[i]);
            i = i + 1;
        }
        has_known_quote(&head)
    } else if begins_with(text, "cmt_") {
        ends_with(text, "usdt") && text.len() >= 8
    } else {
        true
    }
}

/// Whether a Huobi symbol is a contract symbol.
pub fn is_huobi_contract(text: &Vec<char>) -> (r: bool)
    ensures
        r == huobi_contract_shape(text@),
{
    ends_with(text, "-USD") || ends_with(text, "-USDT") || contains_text(text, "-C-")
        || contains_text(text, "-P-") || ends_with(text, "_CW") || ends_with(text, "_NW")
        || ends_with(text, "_CQ") || ends_with(text, "_NQ")
}

/// Whether `symbol` is handed to the outside crate for `exchange`.
pub fn is_accepted(symbol: &str, exchange: &str) -> (r: bool)
    ensures
        r == accepted(symbol@, exchange@),
{
    proof {
        lemma_exchanges_differ();
    }
    if same_text(exchange, "zbg") {
        true
    } else if same_text(exchange, "huobi") {
        let text = chars_of(symbol);
        is_huobi_contract(&text)
    } else if same_text(exchange, "kucoin") {
        let text = chars_of(symbol);
        is_kucoin_shape(&text)
    } else if same_text(exchange, "bitget") {
        let text = chars_of(symbol);
        is_bitget_shape(&text)
    } else {
        false
    }
}

/// The names of the four exchanges differ from one another.
pub proof fn lemma_exchanges_differ()
    ensures
        "huobi"@ != "kucoin"@,
        "huobi"@ != "zbg"@,
        "huobi"@ != "bitget"@,
        "kucoin"@ != "zbg"@,
        "kucoin"@ != "bitget"@,
        "zbg"@ != "bitget"@,
{
    reveal_strlit("huobi");
    reveal_strlit("kucoin");
    reveal_strlit("zbg");
    reveal_strlit("bitget");
    assert("huobi"@.len() == 5 && "kucoin"@.len() == 6 && "zbg"@.len() == 3 && "bitget"@.len()
        == 6);
    assert("kucoin"@[0] != "bitget"@[0]);
}

/// The result for an accepted symbol, given what the outside crate answered:
/// its pair, or `UnrecognizedSymbol` when it had none.
pub fn pair_from_answer(answer: Option<String>) -> (r: Result<String, ParseError>)
    ensures
        pair_outcome(r) == outcome_of(
            match answer {
                Some(pair) => Some(pair@),
                None => None,
            },
        ),
{
    match answer {
        Some(pair) => Ok(pair),
        None => Err(ParseError::UnrecognizedSymbol),
    }
}

/// The quote currencies of Huobi's spot market that are fixed in the
/// source, as a table to hand to `normalize`. A caller that knows of more
/// appends them.
pub fn huobi_quotes() -> (r: Vec<String>)
    ensures
        string_views(r@) == huobi_fixed_quotes(),
{
    let mut quotes: Vec<String> = Vec::new();
    quotes.push("brl".to_owned());
    quotes.push("btc".to_owned());
    quotes.push("eth".to_owned());
    quotes.push("eur".to_owned());
    quotes.push("euroc".to_owned());
    quotes.push("gbp".to_owned());
    quotes.push("ht".to_owned());
    quotes.push("husd".to_owned());
    quotes.push("rub".to_owned());
    quotes.push("trx".to_owned());
    quotes.push("try".to_owned());
    quotes.push("tusd".to_owned());
    quotes.push("uah".to_owned());
    quotes.push("usdc".to_owned());
    quotes.push("usdd".to_owned());
    quotes.push("usdt".to_owned());
    quotes.push("ust".to_owned());
    quotes.push("ustc".to_owned());
    assert(string_views(quotes@) =~= huobi_fixed_quotes());
    quotes
}

/// Maps a symbol to its pair by the fixed rules of its exchange.
///
/// A symbol that the rules do not cover, or in which they find no pair,
/// gives `UnrecognizedSymbol`.
pub fn normalize_fixed(symbol: &str, exchange: &str) -> (r: Result<String, ParseError>)
    ensures
        pair_outcome(r) == fixed_outcome(symbol@, exchange@),
{
    if !is_accepted(symbol, exchange) {
        return Err(ParseError::UnrecognizedSymbol);
    }
    pair_from_answer(outside_pair(symbol, exchange))
}

/// Maps a spot symbol to its pair by cutting off the first quote of the
/// table that the symbol ends in.
///
/// A symbol that ends in no quote of the table gives `UnrecognizedSymbol`.
pub fn normalize_spot(symbol: &str, quotes: &Vec<String>) -> (r: Result<String, ParseError>)
    ensures
        pair_outcome(r) == spot_outcome(symbol@, string_views(quotes@)),
{
    let text = chars_of(symbol);
    let ghost table = string_views(quotes@);
    let mut i: usize = 0;
    assert(table.skip(0) =~= table);
    while i < quotes.len()
        invariant
            i <= quotes.len(),
            text@ == symbol@,
            table == string_views(quotes@),
            split_by_quotes(symbol@, table) == split_by_quotes(symbol@, table.skip(i as int)),
        decreases quotes.len() - i,
    {
        proof {
            assert(table.skip(i as int)[0] == quotes@[i as int]@);
            assert(table.skip(i as int).drop_first() =~= table.skip(i + 1));
        }
        let quote = quotes[i].as_str();
        if ends_with(&text, quote) {
            let width = chars_of(quote).len();
            let base = string_of_range(&text, 0, text.len() - width);
            let upper_base = uppercase(base.as_str());
            let upper_quote = uppercase(quote);
            return Ok(joined(upper_base.as_str(), "/", upper_quote.as_str()));
        }
        i = i + 1;
    }
    Err(ParseError::UnrecognizedSymbol)
}

/// Maps an exchange symbol to its canonical pair.
///
/// A Huobi spot symbol is split against `quotes`; every other symbol goes
/// by the fixed rules of its exchange, and `quotes` is not looked at. A
/// symbol outside the exchange's grammar, or one in which no pair is
/// found, gives `UnrecognizedSymbol`. The result depends on the arguments
/// alone.
pub fn normalize(symbol: &str, exchange: &str, quotes: &Vec<String>) -> (r: Result<
    String,
    ParseError,
>)
    ensures
        pair_outcome(r) == pair_of(symbol@, exchange@, string_views(quotes@)),
{
    let spot = if same_text(exchange, "huobi") {
        let text = chars_of(symbol);
        !is_huobi_contract(&text)
    } else {
        false
    };
    if spot {
        normalize_spot(symbol, quotes)
    } else {
        normalize_fixed(symbol, exchange)
    }
}

/// Normalizing a symbol twice gives the same pair: any two outcomes that
/// `normalize` has for one symbol, exchange and table are equal.
pub proof fn normalize_is_repeatable(
    symbol: Seq<char>,
    exchange: Seq<char>,
    quotes: Seq<Seq<char>>,
    first: Result<Seq<char>, ParseError>,
    second: Result<Seq<char>, ParseError>,
)
    requires
        first == pair_of(symbol, exchange, quotes),
        second == pair_of(symbol, exchange, quotes),
    ensures
        first == second,
{
}

/// In a table where no quote is the end of another, a symbol ends in at
/// most one quote, so the order of the table does not matter: the symbol is
/// split by whichever quote it ends in.
pub proof fn split_is_by_the_one_quote(symbol: Seq<char>, quotes: Seq<Seq<char>>, k: int)
    requires
        0 <= k < quotes.len(),
        quotes[k].is_suffix_of(symbol),
        forall|i: int, j: int|
            0 <= i < quotes.len() && 0 <= j < quotes.len() && i != j ==> !(#[trigger] quotes[i])
                .is_suffix_of(#[trigger] quotes[j]),
    ensures
        split_by_quotes(symbol, quotes) == Some(
            (symbol.subrange(0, symbol.len() - quotes[k].len()), quotes[k]),
        ),
    decreases quotes.len(),
{
    if quotes[0].is_suffix_of(symbol) {
        if k != 0 {
            lemma_suffixes_nest(symbol, quotes[0], quotes[k]);
        }
    } else {
        let rest = quotes.drop_first();
        assert forall|i: int, j: int|
            0 <= i < rest.len() && 0 <= j < rest.len() && i != j implies !(#[trigger] rest[i])
            .is_suffix_of(#[trigger] rest[j]) by {
            assert(rest[i] == quotes[i + 1] && rest[j] == quotes[j + 1]);
        }
        assert(rest[k - 1] == quotes[k]);
        split_is_by_the_one_quote(symbol, rest, k - 1);
    }
}

/// Of two ends of one text, one is an end of the other.
proof fn lemma_suffixes_nest(text: Seq<char>, a: Seq<char>, b: Seq<char>)
    requires
        a.is_suffix_of(text),
        b.is_suffix_of(text),
    ensures
        a.is_suffix_of(b) || b.is_suffix_of(a),
{
    let n = text.len() as int;
    if a.len() <= b.len() {
        assert(a =~= b.subrange(b.len() - a.len(), b.len() as int)) by {
            assert(a == text.subrange(n - a.len(), n));
            assert(b == text.subrange(n - b.len(), n));
        }
    } else {
        assert(b =~= a.subrange(a.len() - b.len(), a.len() as int)) by {
            assert(a == text.subrange(n - a.len(), n));
            assert(b == text.subrange(n - b.len(), n));
        }
    }
}

} // verus!
