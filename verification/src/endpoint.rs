//! Subscription URL building.
//!
//! A single-stream subscription appends the endpoint suffix to the
//! single-stream base; a multiplexed subscription joins the stream names with
//! `/` and appends them to the multiplexed base, whose frames then carry the
//! envelope wrapper. Neither operation validates stream names semantically;
//! the composed text must only parse as a URL.

use vstd::prelude::*;
use vstd::string::*;

verus! {

/// The base of single-stream subscription URLs.
pub open spec fn single_base() -> Seq<char> {
    "wss://stream.binance.com:9443/ws/"@
}

/// The base of multiplexed subscription URLs.
pub open spec fn multi_base() -> Seq<char> {
    "wss://stream.binance.com:9443/stream?streams="@
}

/// The given names joined with `/`.
pub open spec fn join_spec(names: Seq<Seq<char>>) -> Seq<char>
    decreases names.len(),
{
    if names.len() == 0 {
        Seq::empty()
    } else if names.len() == 1 {
        names[0]
    } else {
        join_spec(names.drop_last()) + "/"@ + names.last()
    }
}

/// Whether the text parses as a URL. Success depends on the text alone.
pub uninterp spec fn url_parses(s: Seq<char>) -> bool;

/// Relies on url::Url::parse: it accepts or rejects a given text
/// deterministically, so whether the text parses is a function of the text.
#[verifier::external_body]
pub(crate) fn url_ok(s: &str) -> (r: bool)
    ensures
        r == url_parses(s@),
{
    url::Url::parse(s).is_ok()
}

/// The single-stream subscription URL for the given endpoint suffix.
pub fn single_stream_url(endpoint: &str) -> (u: String)
    ensures
        u@ == single_base() + endpoint@,
{
    let base = String::from_str("wss://stream.binance.com:9443/ws/");
    base.concat(endpoint)
}

/// The given stream names joined with `/`.
pub fn join_streams(names: &Vec<String>) -> (r: String)
    ensures
        r@ == join_spec(names.deep_view()),
{
    let mut out = String::new();
    let mut i: usize = 0;
    while i < names.len()
        invariant
            i <= names@.len(),
            names.deep_view().len() == names@.len(),
            out@ == join_spec(names.deep_view().take(i as int)),
        decreases names@.len() - i,
    {
        proof {
            assert(names.deep_view()[i as int] == names@[i as int]@);
        }
        if i > 0 {
            out.append("/");
        }
        out.append((&names[i]).as_str());
        proof {
            let dv = names.deep_view();
            assert(dv.take(i + 1).drop_last() =~= dv.take(i as int));
            assert(dv.take(i + 1).last() == dv[i as int]);
            if i == 0 {
                assert(join_spec(dv.take(0)) == Seq::<char>::empty());
                assert(out@ =~= join_spec(dv.take(1)));
            } else {
                assert(out@ =~= join_spec(dv.take(i as int)) + "/"@ + dv[i as int]);
            }
        }
        i = i + 1;
    }
    proof {
        assert(names.deep_view().take(names@.len() as int) =~= names.deep_view());
    }
    out
}

/// The multiplexed subscription URL for the given stream names.
pub fn multi_stream_url(endpoints: &Vec<String>) -> (u: String)
    ensures
        u@ == multi_base() + join_spec(endpoints.deep_view()),
{
    let base = String::from_str("wss://stream.binance.com:9443/stream?streams=");
    let joined = join_streams(endpoints);
    base.concat(joined.as_str())
}

} // verus!
