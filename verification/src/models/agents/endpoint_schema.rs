use crate::models::agents::agent_traits::{RouteObject, RouteObjectView};
use vstd::prelude::*;
use vstd::string::*;

verus! {

/// Whether `method` reads GET, in any mix of upper and lower case.
pub open spec fn is_get_method(method: Seq<char>) -> bool {
    &&& method.len() == 3
    &&& (method[0] == 'G' || method[0] == 'g')
    &&& (method[1] == 'E' || method[1] == 'e')
    &&& (method[2] == 'T' || method[2] == 't')
}

/// Whether an endpoint can be probed without made-up input: a GET route
/// whose dynamic flag is literally `false`.
pub open spec fn is_static_get(route: RouteObjectView) -> bool {
    is_get_method(route.method) && route.is_route_dynamic == "false"@
}

/// The endpoints of `raw` that can be probed, in their order in `raw`.
pub open spec fn static_get_endpoints(raw: Seq<RouteObjectView>) -> Seq<RouteObjectView> {
    raw.filter(|route: RouteObjectView| is_static_get(route))
}

/// Decides whether one endpoint can be probed automatically.
pub fn is_probe_candidate(route: &RouteObject) -> (candidate: bool)
    ensures
        candidate == is_static_get(route@),
{
    let method = route.method.as_str();
    if method.unicode_len() != 3 {
        return false;
    }
    let g = method.get_char(0);
    let e = method.get_char(1);
    let t = method.get_char(2);
    let is_get = (g == 'G' || g == 'g') && (e == 'E' || e == 'e') && (t == 'T' || t == 't');
    let literal = String::from_str("false");
    is_get && route.is_route_dynamic == literal
}

/// Keeps the endpoints that can be probed and drops the rest. The order of
/// the kept endpoints is their order in `raw`.
pub fn filter_endpoints(raw: Vec<RouteObject>) -> (kept: Vec<RouteObject>)
    ensures
        kept.deep_view() == static_get_endpoints(raw.deep_view()),
{
    let ghost all = raw.deep_view();
    let ghost items = raw@;
    let mut kept: Vec<RouteObject> = Vec::new();
    proof {
        assert(all.take(0) =~= Seq::<RouteObjectView>::empty());
        assert(kept.deep_view() =~= Seq::<RouteObjectView>::empty());
    }
    for route in it: raw.into_iter()
        invariant
            it.seq() == items,
            all.len() == items.len(),
            forall|i: int| 0 <= i < items.len() ==> all[i] == (#[trigger] items[i]).deep_view(),
            kept.deep_view() == static_get_endpoints(all.take(it.index() as int)),
    {
        let ghost before = kept.deep_view();
        let ghost n = it.index() as int;
        let keep = is_probe_candidate(&route);
        proof {
            lemma_filter_step(all, n);
            assert(route@ == all[n]);
        }
        if keep {
            kept.push(route);
            assert(kept.deep_view() =~= before.push(all[n]));
        }
    }
    proof {
        assert(all.take(items.len() as int) =~= all);
    }
    kept
}

/// Filtering one more endpoint either appends it or changes nothing.
proof fn lemma_filter_step(all: Seq<RouteObjectView>, n: int)
    requires
        0 <= n < all.len(),
    ensures
        static_get_endpoints(all.take(n + 1)) == if is_static_get(all[n]) {
            static_get_endpoints(all.take(n)).push(all[n])
        } else {
            static_get_endpoints(all.take(n))
        },
{
    reveal(Seq::filter);
    assert(all.take(n + 1).drop_last() =~= all.take(n));
    assert(all.take(n + 1).last() == all[n]);
}

/// Filtering keeps exactly the endpoints that can be probed: every endpoint
/// it keeps can be probed, and every endpoint of `raw` that can be probed is
/// kept.
pub proof fn lemma_filter_exact(raw: Seq<RouteObjectView>)
    ensures
        static_get_endpoints(raw).len() <= raw.len(),
        forall|i: int|
            0 <= i < static_get_endpoints(raw).len() ==> is_static_get(
                #[trigger] static_get_endpoints(raw)[i],
            ),
        forall|i: int|
            0 <= i < raw.len() && is_static_get(raw[i]) ==> static_get_endpoints(raw).contains(
                #[trigger] raw[i],
            ),
        forall|i: int|
            0 <= i < static_get_endpoints(raw).len() ==> raw.contains(
                #[trigger] static_get_endpoints(raw)[i],
            ),
    decreases raw.len(),
{
    reveal(Seq::filter);
    if raw.len() > 0 {
        let body = raw.drop_last();
        lemma_filter_exact(body);
        let kept = static_get_endpoints(raw);
        let kept_body = static_get_endpoints(body);
        assert forall|i: int| 0 <= i < kept.len() implies is_static_get(#[trigger] kept[i])
            && raw.contains(kept[i]) by {
            if i < kept_body.len() {
                assert(kept[i] == kept_body[i]);
                let j = choose|j: int| 0 <= j < body.len() && body[j] == kept_body[i];
                assert(raw[j] == kept[i]);
            } else {
                assert(kept[i] == raw.last());
                assert(raw[raw.len() - 1] == kept[i]);
            }
        }
        assert forall|i: int| 0 <= i < raw.len() && is_static_get(raw[i]) implies kept.contains(
            #[trigger] raw[i],
        ) by {
            if i < body.len() {
                assert(body[i] == raw[i]);
                let j = choose|j: int| 0 <= j < kept_body.len() && kept_body[j] == body[i];
                assert(kept[j] == raw[i]);
            } else {
                assert(kept[kept.len() - 1] == raw[i]);
            }
        }
    }
}

/// Filtering is idempotent: filtering what was filtered changes nothing.
pub proof fn lemma_filter_idempotent(raw: Seq<RouteObjectView>)
    ensures
        static_get_endpoints(static_get_endpoints(raw)) == static_get_endpoints(raw),
    decreases raw.len(),
{
    reveal(Seq::filter);
    if raw.len() > 0 {
        let body = raw.drop_last();
        lemma_filter_idempotent(body);
        if is_static_get(raw.last()) {
            let kept = static_get_endpoints(body).push(raw.last());
            assert(kept.drop_last() =~= static_get_endpoints(body));
            assert(kept.last() == raw.last());
        }
    }
}

} // verus!
