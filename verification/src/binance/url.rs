//! Stream URL construction for the binary SBE endpoint.

use vstd::prelude::*;
use vstd::string::StringExecFns;
use vstd::slice::slice_index_get;

verus! {

/// What `str::to_lowercase` yields for a character sequence. The result
/// depends on the characters alone.
pub uninterp spec fn lower_of(s: Seq<char>) -> Seq<char>;

/// Relies on str::to_lowercase: the result is a function of the characters
/// alone, and an empty input stays empty.
#[verifier::external_body]
pub fn lowercase(s: &str) -> (r: String)
    ensures
        r@ == lower_of(s@),
        s@.len() == 0 ==> r@.len() == 0,
{
    s.to_lowercase()
}

/// The streams joined with `/` separators.
pub open spec fn spec_join_slash(streams: Seq<String>) -> Seq<char>
    decreases streams.len(),
{
    if streams.len() == 0 {
        Seq::empty()
    } else if streams.len() == 1 {
        streams[0]@
    } else {
        spec_join_slash(streams.drop_last()) + "/"@ + streams.last()@
    }
}

/// The single-stream SBE endpoint URL.
pub fn build_sbe_stream_url(symbol: &str, stream_type: &str) -> (r: String)
    ensures
        r@ == "wss://stream-sbe.binance.com:9443"@ + "/ws/"@ + lower_of(symbol@) + "@"@
            + stream_type@,
{
    let mut url = "wss://stream-sbe.binance.com:9443".to_owned();
    url.append("/ws/");
    let lower = lowercase(symbol);
    url.append(lower.as_str());
    url.append("@");
    url.append(stream_type);
    url
}

/// The combined-stream SBE endpoint URL: every stream name, slash-joined.
pub fn build_sbe_combined_url(streams: &Vec<String>) -> (r: String)
    ensures
        r@ == "wss://stream-sbe.binance.com:9443"@ + "/stream?streams="@ + spec_join_slash(
            streams@,
        ),
{
    let mut url = "wss://stream-sbe.binance.com:9443".to_owned();
    url.append("/stream?streams=");
    let ghost head = url@;
    let n: usize = streams.len();
    let mut i: usize = 0;
    while i < n
        invariant
            n == streams@.len(),
            0 <= i <= n,
            url@ == head + spec_join_slash(streams@.take(i as int)),
        decreases n - i,
    {
        if i > 0 {
            url.append("/");
        }
        url.append(streams[i].as_str());
        i += 1;
        proof {
            let taken = streams@.take(i as int);
            assert(taken.drop_last() =~= streams@.take(i - 1));
            assert(taken.last() == streams@[i - 1]);
            if i == 1 {
                assert(url@ =~= head + spec_join_slash(taken));
            } else {
                assert(url@ =~= head + spec_join_slash(taken));
            }
        }
    }
    proof {
        assert(streams@.take(n as int) =~= streams@);
    }
    url
}

/// The per-symbol stream names the combined URL subscribes: the trade,
/// best-bid/ask and twenty-level depth streams of each symbol, in order.
pub fn streams_for_symbols(symbols: &Vec<String>) -> (r: Vec<String>)
    ensures
        r@.len() == 3 * symbols@.len(),
        forall|i: int|
            0 <= i < symbols@.len() ==> #[trigger] r@[3 * i]@ == lower_of(symbols@[i]@)
                + "@trade"@ && r@[3 * i + 1]@ == lower_of(symbols@[i]@) + "@bestBidAsk"@ && r@[3
                * i + 2]@ == lower_of(symbols@[i]@) + "@depth20"@,
{
    let mut out: Vec<String> = Vec::new();
    let n: usize = symbols.len();
    let mut i: usize = 0;
    while i < n
        invariant
            n == symbols@.len(),
            0 <= i <= n,
            out@.len() == 3 * i,
            forall|j: int|
                0 <= j < i ==> #[trigger] out@[3 * j]@ == lower_of(symbols@[j]@) + "@trade"@
                    && out@[3 * j + 1]@ == lower_of(symbols@[j]@) + "@bestBidAsk"@ && out@[3 * j
                    + 2]@ == lower_of(symbols@[j]@) + "@depth20"@,
        decreases n - i,
    {
        let mut trade = lowercase(symbols[i].as_str());
        trade.append("@trade");
        out.push(trade);
        let mut bba = lowercase(symbols[i].as_str());
        bba.append("@bestBidAsk");
        out.push(bba);
        let mut depth = lowercase(symbols[i].as_str());
        depth.append("@depth20");
        out.push(depth);
        i += 1;
        proof {
            assert forall|j: int| 0 <= j < i implies #[trigger] out@[3 * j]@ == lower_of(
                symbols@[j]@,
            ) + "@trade"@ && out@[3 * j + 1]@ == lower_of(symbols@[j]@) + "@bestBidAsk"@ && out@[3
                * j + 2]@ == lower_of(symbols@[j]@) + "@depth20"@ by {
                if j == i - 1 {
                    assert(out@[3 * j] == trade);
                    assert(out@[3 * j + 1] == bba);
                    assert(out@[3 * j + 2] == depth);
                }
            }
        }
    }
    out
}

} // verus!
