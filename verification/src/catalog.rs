//! What the pages show of the providers and their models: slugs, which
//! providers are shown, which models are free and in what order they come,
//! the columns of a model table and the text of each cell.

use vstd::prelude::*;
use crate::config::{Config, FreeRules, ProviderConfig};
use crate::json::{
    Json,
    JsonMember,
    JsonV,
    as_bool,
    as_object,
    as_str,
    get,
    get_member,
    bool_value,
    object_members,
    string_value,
    parse_json,
    write_json,
};
use crate::providers::ProviderStatus;
use crate::text::{
    chars_of,
    lemma_text_lt_irreflexive,
    lemma_text_lt_total,
    lemma_text_lt_transitive,
    push_str,
    text_less,
    text_lt,
    trim_end_char,
    trim_end_matching,
    contains_chars,
    ends_with,
    ends_with_chars,
    has_sub,
    occurs_at,
    lowercase,
    replace_chars,
    replaced,
    same_text,
    string_of,
    to_lowercase,
    zero_text,
    is_zero_text,
};

verus! {

/// A model id that ends so is free by the first rule.
pub const COLON_FREE: &'static str = ":free";

/// A model id that holds this is free by the second rule.
pub const DASH_FREE: &'static str = "-free";

/// A model id that holds this, in any case, is free by the third rule.
pub const FREE: &'static str = "free";

/// The member of a model's raw data that marks it free.
pub const IS_FREE: &'static str = "isFree";

/// The member of a model's raw data that holds its prices.
pub const PRICING: &'static str = "pricing";

/// A member of a model's raw data that gets no column of its own.
pub const OBJECT: &'static str = "object";

/// The member of a model's raw data that names it.
pub const ID_KEY: &'static str = "id";

/// A space, in a provider's name.
pub const SPACE: &'static str = " ";

/// A dash, in a slug.
pub const DASH: &'static str = "-";

/// A double quote.
pub const QUOTE: &'static str = "\"";

/// What a double quote is written as in an attribute.
pub const QUOTE_ENTITY: &'static str = "&quot;";

/// A single quote.
pub const APOSTROPHE: &'static str = "'";

/// What a single quote is written as in an attribute.
pub const APOSTROPHE_ENTITY: &'static str = "&#39;";

/// An underscore, in a column's key.
pub const UNDERSCORE: &'static str = "_";

/// The text of the boolean true.
pub const TRUE_TEXT: &'static str = "true";

/// The text of the boolean false.
pub const FALSE_TEXT: &'static str = "false";

// ---------------------------------------------------------------------------
// Slugs
// ---------------------------------------------------------------------------

/// The slug of a provider's name: its lowercase form with each space
/// replaced by a dash.
pub open spec fn slug_text(name: Seq<char>) -> Seq<char> {
    replaced(lowercase(name), SPACE@, DASH@)
}

/// The slug of a name already in lowercase: each space replaced by a dash.
pub fn slug_of_lowercase(lower: &str) -> (s: String)
    ensures
        s@ == replaced(lower@, SPACE@, DASH@),
{
    let pat = chars_of(SPACE);
    let rep = chars_of(DASH);
    proof {
        reveal_strlit(" ");
    }
    string_of(&replace_chars(&chars_of(lower), &pat, &rep))
}

/// The slug of a provider's name, the last part of the address of its page.
pub fn make_slug(name: &str) -> (s: String)
    ensures
        s@ == slug_text(name@),
{
    let lower = to_lowercase(name);
    slug_of_lowercase(lower.as_str())
}

/// Replacing one character by another keeps the length and leaves none of
/// the first.
proof fn lemma_replaced_char(s: Seq<char>, a: char, b: char)
    requires
        a != b,
    ensures
        replaced(s, seq![a], seq![b]).len() == s.len(),
        forall|i: int|
            0 <= i < s.len() ==> #[trigger] replaced(s, seq![a], seq![b])[i] == if s[i] == a {
                b
            } else {
                s[i]
            },
    decreases s.len(),
{
    if s.len() > 0 {
        lemma_replaced_char(s.skip(1), a, b);
        let r = replaced(s, seq![a], seq![b]);
        let rest = replaced(s.skip(1), seq![a], seq![b]);
        if s.take(1) == seq![a] {
            assert(s[0] == a) by {
                assert(s.take(1)[0] == s[0]);
            }
            assert(r == seq![b] + rest);
        } else {
            assert(s[0] != a) by {
                if s[0] == a {
                    assert(s.take(1) =~= seq![a]);
                }
            }
            assert(r == seq![s[0]] + rest);
        }
        assert forall|i: int| 0 <= i < s.len() implies #[trigger] r[i] == if s[i] == a {
            b
        } else {
            s[i]
        } by {
            if i > 0 {
                assert(r[i] == rest[i - 1]);
                assert(s.skip(1)[i - 1] == s[i]);
            }
        }
    }
}

/// A slug is as long as the lowercase name and holds no space.
pub proof fn lemma_slug_has_no_space(name: Seq<char>)
    ensures
        slug_text(name).len() == lowercase(name).len(),
        forall|i: int| 0 <= i < slug_text(name).len() ==> #[trigger] slug_text(name)[i] != ' ',
{
    reveal_strlit(" ");
    reveal_strlit("-");
    assert(SPACE@ =~= seq![' ']);
    assert(DASH@ =~= seq!['-']);
    lemma_replaced_char(lowercase(name), ' ', '-');
}

/// A cell's text, as the table shows it: the value as it is.
pub fn format_cell_value(key: &str, val: &str) -> (s: String)
    ensures
        s@ == val@,
{
    String::from_str(val)
}

// ---------------------------------------------------------------------------
// Which providers are shown
// ---------------------------------------------------------------------------

/// Some disabled provider of the configuration has this name.
pub open spec fn disabled_name(providers: Seq<ProviderConfig>, name: Seq<char>) -> bool {
    exists|i: int| 0 <= i < providers.len() && #[trigger] providers[i].disabled && providers[i].name@ == name
}

/// The statuses that are shown: those of providers that no disabled provider
/// shares the name of.
pub open spec fn shown(providers: Seq<ProviderConfig>, statuses: Seq<ProviderStatus>) -> Seq<
    ProviderStatus,
> {
    statuses.filter(|s: ProviderStatus| !disabled_name(providers, s.name@))
}

/// Whether a disabled provider of `cfg` has the name `name`.
pub fn is_disabled_name(cfg: &Config, name: &str) -> (r: bool)
    ensures
        r == disabled_name(cfg.providers@, name@),
{
    let mut i: usize = 0;
    while i < cfg.providers.len()
        invariant
            0 <= i <= cfg.providers.len(),
            forall|k: int|
                0 <= k < i ==> !(#[trigger] cfg.providers@[k].disabled && cfg.providers@[k].name@
                    == name@),
        decreases cfg.providers.len() - i,
    {
        if cfg.providers[i].disabled && same_text(cfg.providers[i].name.as_str(), name) {
            return true;
        }
        i = i + 1;
    }
    false
}

/// The statuses shown on the pages, in the order given.
pub fn visible_statuses(statuses: Vec<ProviderStatus>, cfg: &Config) -> (r: Vec<ProviderStatus>)
    ensures
        r@ == shown(cfg.providers@, statuses@),
{
    let ghost all = statuses@;
    let ghost keep = |s: ProviderStatus| !disabled_name(cfg.providers@, s.name@);
    let mut out: Vec<ProviderStatus> = Vec::new();
    for s in it: statuses
        invariant
            all == it.seq(),
            keep == (|s: ProviderStatus| !disabled_name(cfg.providers@, s.name@)),
            out@ == all.take(it.index() as int).filter(keep),
    {
        let ghost k = it.index() as int;
        assert(all.take(k + 1) =~= all.take(k).push(s));
        proof {
            all.take(k).lemma_filter_push(s, keep);
        }
        let ghost before = all.take(k).filter(keep);
        assert(all.take(k + 1).filter(keep) == if keep(s) {
            before.push(s)
        } else {
            before
        });
        if !is_disabled_name(cfg, s.name.as_str()) {
            out.push(s);
        }
    }
    assert(all.take(all.len() as int) =~= all);
    out
}

/// The statuses shown are statuses given, in their order, none of a
/// disabled provider's name; and every status given that no disabled
/// provider shares the name of is shown.
pub proof fn lemma_shown_statuses(providers: Seq<ProviderConfig>, statuses: Seq<ProviderStatus>)
    ensures
        forall|i: int|
            0 <= i < shown(providers, statuses).len() ==> !disabled_name(
                providers,
                (#[trigger] shown(providers, statuses)[i]).name@,
            ) && statuses.contains(shown(providers, statuses)[i]),
        forall|i: int|
            0 <= i < statuses.len() && !disabled_name(providers, (#[trigger] statuses[i]).name@)
                ==> shown(providers, statuses).contains(statuses[i]),
        shown(providers, statuses).len() <= statuses.len(),
{
    broadcast use vstd::seq_lib::group_filter_ensures;

    let keep = |s: ProviderStatus| !disabled_name(providers, s.name@);
    let sh = shown(providers, statuses);
    assert forall|i: int| 0 <= i < sh.len() implies !disabled_name(providers, (#[trigger] sh[i]).name@)
        && statuses.contains(sh[i]) by {
        assert(keep(sh[i]));
        assert(sh.contains(sh[i]));
        statuses.lemma_filter_contains_rev(keep, sh[i]);
    }
    assert forall|i: int|
        0 <= i < statuses.len() && !disabled_name(providers, (#[trigger] statuses[i]).name@) implies sh.contains(
        statuses[i],
    ) by {
        assert(keep(statuses[i]));
    }
}

/// A stored status is hidden exactly when some configured provider of its
/// name is disabled.
pub proof fn lemma_hidden_exactly_when_disabled(
    providers: Seq<ProviderConfig>,
    statuses: Seq<ProviderStatus>,
    i: int,
)
    requires
        0 <= i < statuses.len(),
    ensures
        !shown(providers, statuses).contains(statuses[i]) <==> exists|j: int|
            0 <= j < providers.len() && (#[trigger] providers[j]).disabled && providers[j].name@
                == statuses[i].name@,
{
    lemma_shown_statuses(providers, statuses);
    let sh = shown(providers, statuses);
    if sh.contains(statuses[i]) {
        let k = choose|k: int| 0 <= k < sh.len() && sh[k] == statuses[i];
        assert(!disabled_name(providers, sh[k].name@));
    }
}

/// What is shown depends on the names and the disabled flags of the
/// configured providers alone: their keys, addresses and rules play no part.
pub proof fn lemma_shown_ignores_keys(
    p1: Seq<ProviderConfig>,
    p2: Seq<ProviderConfig>,
    statuses: Seq<ProviderStatus>,
)
    requires
        p1.len() == p2.len(),
        forall|j: int|
            0 <= j < p1.len() ==> (#[trigger] p1[j]).name@ == p2[j].name@ && p1[j].disabled
                == p2[j].disabled,
    ensures
        forall|n: Seq<char>| #[trigger] disabled_name(p1, n) == disabled_name(p2, n),
        shown(p1, statuses) == shown(p2, statuses),
{
    assert forall|n: Seq<char>| disabled_name(p1, n) == disabled_name(p2, n) by {
        if disabled_name(p1, n) {
            let j = choose|j: int| 0 <= j < p1.len() && #[trigger] p1[j].disabled && p1[j].name@ == n;
            assert(p2[j].disabled && p2[j].name@ == n);
        }
        if disabled_name(p2, n) {
            let j = choose|j: int| 0 <= j < p2.len() && #[trigger] p2[j].disabled && p2[j].name@ == n;
            assert(p1[j].disabled && p1[j].name@ == n);
        }
    }
    let k1 = |s: ProviderStatus| !disabled_name(p1, s.name@);
    let k2 = |s: ProviderStatus| !disabled_name(p2, s.name@);
    assert(k1 =~= k2);
}

/// The positions of the providers that are checked: the enabled ones, in
/// order.
pub fn providers_to_check(cfg: &Config) -> (r: Vec<usize>)
    ensures
        forall|i: int| 0 <= i < r@.len() ==> #[trigger] r@[i] < cfg.providers@.len() && !cfg.providers@[r@[i] as int].disabled,
        forall|i: int, j: int| 0 <= i < j < r@.len() ==> r@[i] < r@[j],
        forall|k: int|
            0 <= k < cfg.providers@.len() && !(#[trigger] cfg.providers@[k]).disabled ==> r@.contains(
                k as usize,
            ),
{
    let mut r: Vec<usize> = Vec::new();
    let mut i: usize = 0;
    while i < cfg.providers.len()
        invariant
            0 <= i <= cfg.providers.len(),
            forall|x: int| 0 <= x < r@.len() ==> #[trigger] r@[x] < i && !cfg.providers@[r@[x] as int].disabled,
            forall|x: int, y: int| 0 <= x < y < r@.len() ==> r@[x] < r@[y],
            forall|k: int|
                0 <= k < i && !(#[trigger] cfg.providers@[k]).disabled ==> r@.contains(k as usize),
        decreases cfg.providers.len() - i,
    {
        if !cfg.providers[i].disabled {
            let ghost before = r@;
            r.push(i);
            assert forall|k: int|
                0 <= k < i + 1 && !(#[trigger] cfg.providers@[k]).disabled implies r@.contains(
                k as usize,
            ) by {
                if k < i {
                    let x = choose|x: int| 0 <= x < before.len() && before[x] == k as usize;
                    assert(r@[x] == k as usize);
                } else {
                    assert(r@[r@.len() - 1] == k as usize);
                }
            }
        }
        i = i + 1;
    }
    r
}

// ---------------------------------------------------------------------------
// Finding a provider
// ---------------------------------------------------------------------------

/// The position of the first provider named `name`, if any.
pub open spec fn config_index(ps: Seq<ProviderConfig>, name: Seq<char>) -> Option<int> {
    if exists|i: int| 0 <= i < ps.len() && #[trigger] ps[i].name@ == name {
        Some(
            choose|i: int|
                0 <= i < ps.len() && #[trigger] ps[i].name@ == name && forall|j: int|
                    0 <= j < i ==> ps[j].name@ != name,
        )
    } else {
        None
    }
}

/// The position of the first status named `name`, if any.
pub open spec fn status_index(ss: Seq<ProviderStatus>, name: Seq<char>) -> Option<int> {
    if exists|i: int| 0 <= i < ss.len() && #[trigger] ss[i].name@ == name {
        Some(
            choose|i: int|
                0 <= i < ss.len() && #[trigger] ss[i].name@ == name && forall|j: int|
                    0 <= j < i ==> ss[j].name@ != name,
        )
    } else {
        None
    }
}

/// An index seen as an integer.
pub open spec fn opt_int(r: Option<usize>) -> Option<int> {
    match r {
        Some(i) => Some(i as int),
        None => None,
    }
}

/// The position of the first provider of `cfg` named `name`, if any, as
/// `config_index`.
pub fn find_config(cfg: &Config, name: &str) -> (r: Option<usize>)
    ensures
        opt_int(r) == config_index(cfg.providers@, name@),
        match r {
            Some(i) => i < cfg.providers@.len() && cfg.providers@[i as int].name@ == name@
                && forall|j: int| 0 <= j < i ==> cfg.providers@[j].name@ != name@,
            None => forall|j: int| 0 <= j < cfg.providers@.len() ==> cfg.providers@[j].name@ != name@,
        },
{
    let mut i: usize = 0;
    while i < cfg.providers.len()
        invariant
            0 <= i <= cfg.providers.len(),
            forall|j: int| 0 <= j < i ==> cfg.providers@[j].name@ != name@,
        decreases cfg.providers.len() - i,
    {
        if same_text(cfg.providers[i].name.as_str(), name) {
            proof {
                let ps = cfg.providers@;
                assert(0 <= i < ps.len() && ps[i as int].name@ == name@);
                let w = choose|w: int|
                    0 <= w < ps.len() && #[trigger] ps[w].name@ == name@ && forall|j: int|
                        0 <= j < w ==> ps[j].name@ != name@;
                assert(w == i) by {
                    if w < i {
                    } else if w > i {
                    }
                }
            }
            return Some(i);
        }
        i = i + 1;
    }
    None
}

/// The position of the first status named `name`, if any, as
/// `status_index`.
pub fn find_status(statuses: &Vec<ProviderStatus>, name: &str) -> (r: Option<usize>)
    ensures
        opt_int(r) == status_index(statuses@, name@),
        match r {
            Some(i) => i < statuses@.len() && statuses@[i as int].name@ == name@ && forall|j: int|
                0 <= j < i ==> statuses@[j].name@ != name@,
            None => forall|j: int| 0 <= j < statuses@.len() ==> statuses@[j].name@ != name@,
        },
{
    let mut i: usize = 0;
    while i < statuses.len()
        invariant
            0 <= i <= statuses.len(),
            forall|j: int| 0 <= j < i ==> statuses@[j].name@ != name@,
        decreases statuses.len() - i,
    {
        if same_text(statuses[i].name.as_str(), name) {
            proof {
                let ss = statuses@;
                assert(0 <= i < ss.len() && ss[i as int].name@ == name@);
                let w = choose|w: int|
                    0 <= w < ss.len() && #[trigger] ss[w].name@ == name@ && forall|j: int|
                        0 <= j < w ==> ss[j].name@ != name@;
                assert(w == i) by {
                    if w < i {
                    } else if w > i {
                    }
                }
            }
            return Some(i);
        }
        i = i + 1;
    }
    None
}

/// The provider a page address names: the first status whose slug is `slug`,
/// else `slug` itself.
pub open spec fn provider_for_slug_text(statuses: Seq<ProviderStatus>, slug: Seq<char>) -> Seq<char> {
    if exists|i: int| 0 <= i < statuses.len() && slug_text(#[trigger] statuses[i].name@) == slug {
        let i = choose|i: int|
            0 <= i < statuses.len() && slug_text(#[trigger] statuses[i].name@) == slug && forall|j: int|
                0 <= j < i ==> slug_text(statuses[j].name@) != slug;
        statuses[i].name@
    } else {
        slug
    }
}

/// The address on a provider's card leads back to a provider of the same
/// slug, and to that very provider when no other status shares its slug.
pub proof fn lemma_slug_leads_back(statuses: Seq<ProviderStatus>, i: int)
    requires
        0 <= i < statuses.len(),
    ensures
        slug_text(provider_for_slug_text(statuses, slug_text(statuses[i].name@))) == slug_text(
            statuses[i].name@,
        ),
        (forall|j: int|
            0 <= j < statuses.len() && j != i ==> slug_text(#[trigger] statuses[j].name@)
                != slug_text(statuses[i].name@)) ==> provider_for_slug_text(
            statuses,
            slug_text(statuses[i].name@),
        ) == statuses[i].name@,
{
    let slug = slug_text(statuses[i].name@);
    assert(0 <= i < statuses.len() && slug_text(statuses[i].name@) == slug);
    assert(exists|k: int|
        0 <= k < statuses.len() && slug_text(#[trigger] statuses[k].name@) == slug && forall|j: int|
            0 <= j < k ==> slug_text(statuses[j].name@) != slug) by {
        lemma_first_with_slug(statuses, slug, i);
    }
}

/// Where some status has the slug, a first one has it.
proof fn lemma_first_with_slug(statuses: Seq<ProviderStatus>, slug: Seq<char>, i: int)
    requires
        0 <= i < statuses.len(),
        slug_text(statuses[i].name@) == slug,
    ensures
        exists|k: int|
            0 <= k < statuses.len() && slug_text(#[trigger] statuses[k].name@) == slug && forall|j: int|
                0 <= j < k ==> slug_text(statuses[j].name@) != slug,
    decreases i,
{
    if exists|j: int| 0 <= j < i && slug_text(#[trigger] statuses[j].name@) == slug {
        let j = choose|j: int| 0 <= j < i && slug_text(#[trigger] statuses[j].name@) == slug;
        lemma_first_with_slug(statuses, slug, j);
    } else {
        assert(forall|j: int| 0 <= j < i ==> slug_text(#[trigger] statuses[j].name@) != slug);
    }
}

/// The name of the provider a page address names, as
/// `provider_for_slug_text`.
pub fn provider_for_slug(statuses: &Vec<ProviderStatus>, slug: &str) -> (name: String)
    ensures
        name@ == provider_for_slug_text(statuses@, slug@),
{
    let mut i: usize = 0;
    while i < statuses.len()
        invariant
            0 <= i <= statuses.len(),
            forall|j: int| 0 <= j < i ==> slug_text(statuses@[j].name@) != slug@,
        decreases statuses.len() - i,
    {
        let s = make_slug(statuses[i].name.as_str());
        if same_text(s.as_str(), slug) {
            let ghost w = choose|k: int|
                0 <= k < statuses@.len() && slug_text(#[trigger] statuses@[k].name@) == slug@
                    && forall|j: int| 0 <= j < k ==> slug_text(statuses@[j].name@) != slug@;
            assert(0 <= i < statuses@.len() && slug_text(statuses@[i as int].name@) == slug@
                && forall|j: int| 0 <= j < i ==> slug_text(statuses@[j].name@) != slug@);
            assert(w == i) by {
                if w < i {
                } else if w > i {
                }
            }
            return statuses[i].name.clone();
        }
        i = i + 1;
    }
    String::from_str(slug)
}

// ---------------------------------------------------------------------------
// Free models
// ---------------------------------------------------------------------------

/// The boolean member `key` of `raw`.
pub open spec fn bool_member(raw: JsonV, key: Seq<char>) -> Option<bool> {
    match get(raw, key) {
        Some(v) => as_bool(v),
        None => None,
    }
}

/// A price that is zero: a text or a number whose decimal notation denotes
/// zero (see `zero_text`).
pub open spec fn zero_price(v: JsonV) -> bool {
    match v {
        JsonV::Str(s) => zero_text(s),
        JsonV::Number(_, t) => zero_text(t),
        _ => false,
    }
}

/// All the prices of a model are zero: its raw data has a non-empty
/// `PRICING` object whose every value is a zero price.
pub open spec fn all_prices_zero(raw: JsonV) -> bool {
    match get(raw, PRICING@) {
        Some(p) => match as_object(p) {
            Some(ms) => ms.len() > 0 && forall|i: int| 0 <= i < ms.len() ==> #[trigger] zero_price(ms[i].1),
            None => false,
        },
        None => false,
    }
}

/// Whether a model is free under `rules`, given the lowercase form of its id.
pub open spec fn is_free_with(id: Seq<char>, lower_id: Seq<char>, raw: JsonV, rules: FreeRules) -> bool {
    ||| rules.id_suffix_colon_free && ends_with(id, COLON_FREE@)
    ||| rules.id_contains_dash_free && has_sub(id, DASH_FREE@)
    ||| rules.id_contains_free && has_sub(lower_id, FREE@)
    ||| rules.field_is_free && bool_member(raw, IS_FREE@) == Some(true)
    ||| rules.zero_pricing && all_prices_zero(raw)
}

/// Whether a model is free under `rules` (see `is_free_with`).
pub open spec fn is_free(id: Seq<char>, raw: JsonV, rules: FreeRules) -> bool {
    is_free_with(id, lowercase(id), raw, rules)
}

/// The rules with only the flags given set.
pub open spec fn rules_of(a: bool, b: bool, c: bool, d: bool, e: bool) -> FreeRules {
    FreeRules {
        id_suffix_colon_free: a,
        id_contains_dash_free: b,
        id_contains_free: c,
        field_is_free: d,
        zero_pricing: e,
    }
}

/// What each rule asks, alone: under no rule no model is free; by the id
/// rules a model is free when its id ends with ":free", holds "-free", or
/// holds "free" once in lowercase; by the field rule when its raw data's
/// member "isFree" is the boolean true (never when it is false); by the
/// price rule when its raw data has a non-empty "pricing" object whose every
/// value is a text or number that denotes zero.
pub proof fn lemma_each_free_rule(id: Seq<char>, lower_id: Seq<char>, raw: JsonV)
    ensures
        !is_free_with(id, lower_id, raw, rules_of(false, false, false, false, false)),
        is_free_with(id, lower_id, raw, rules_of(true, false, false, false, false)) <==> (id.len()
            >= 5 && id.subrange(id.len() - 5, id.len() as int) == ":free"@),
        is_free_with(id, lower_id, raw, rules_of(false, true, false, false, false)) <==> exists|i: int|
            0 <= i && i + 5 <= id.len() && #[trigger] id.subrange(i, i + 5) == "-free"@,
        is_free_with(id, lower_id, raw, rules_of(false, false, true, false, false)) <==> exists|i: int|
            0 <= i && i + 4 <= lower_id.len() && #[trigger] lower_id.subrange(i, i + 4) == "free"@,
        is_free_with(id, lower_id, raw, rules_of(false, false, false, true, false)) <==> get(
            raw,
            "isFree"@,
        ) == Some(JsonV::Bool(true)),
        get(raw, "isFree"@) == Some(JsonV::Bool(false)) ==> !is_free_with(
            id,
            lower_id,
            raw,
            rules_of(false, false, false, true, false),
        ),
        is_free_with(id, lower_id, raw, rules_of(false, false, false, false, true)) <==> match get(
            raw,
            "pricing"@,
        ) {
            Some(JsonV::Object(ms)) => ms.len() > 0 && forall|i: int|
                0 <= i < ms.len() ==> match (#[trigger] ms[i]).1 {
                    JsonV::Str(s) => zero_text(s),
                    JsonV::Number(_, t) => zero_text(t),
                    _ => false,
                },
            _ => false,
        },
{
    reveal_strlit(":free");
    reveal_strlit("-free");
    reveal_strlit("free");
    assert(COLON_FREE@ =~= ":free"@);
    assert(DASH_FREE@ =~= "-free"@);
    assert(FREE@ =~= "free"@);
    assert(IS_FREE@ =~= "isFree"@) by {
        reveal_strlit("isFree");
    }
    assert(PRICING@ =~= "pricing"@) by {
        reveal_strlit("pricing");
    }
    if has_sub(id, DASH_FREE@) {
        let i = choose|i: int| occurs_at(id, DASH_FREE@, i);
        assert(0 <= i && i + 5 <= id.len() && id.subrange(i, i + 5) == "-free"@);
    }
    if exists|i: int| 0 <= i && i + 5 <= id.len() && #[trigger] id.subrange(i, i + 5) == "-free"@ {
        let i = choose|i: int| 0 <= i && i + 5 <= id.len() && #[trigger] id.subrange(i, i + 5) == "-free"@;
        assert(occurs_at(id, DASH_FREE@, i));
    }
    if has_sub(lower_id, FREE@) {
        let i = choose|i: int| occurs_at(lower_id, FREE@, i);
        assert(0 <= i && i + 4 <= lower_id.len() && lower_id.subrange(i, i + 4) == "free"@);
    }
    if exists|i: int| 0 <= i && i + 4 <= lower_id.len() && #[trigger] lower_id.subrange(i, i + 4) == "free"@ {
        let i = choose|i: int|
            0 <= i && i + 4 <= lower_id.len() && #[trigger] lower_id.subrange(i, i + 4) == "free"@;
        assert(occurs_at(lower_id, FREE@, i));
    }
    if let Some(JsonV::Object(ms)) = get(raw, PRICING@) {
        if forall|i: int| 0 <= i < ms.len() ==> #[trigger] zero_price(ms[i].1) {
            assert forall|i: int| 0 <= i < ms.len() implies match (#[trigger] ms[i]).1 {
                JsonV::Str(s) => zero_text(s),
                JsonV::Number(_, t) => zero_text(t),
                _ => false,
            } by {
                assert(zero_price(ms[i].1));
            }
        }
        if forall|i: int|
            0 <= i < ms.len() ==> match (#[trigger] ms[i]).1 {
                JsonV::Str(s) => zero_text(s),
                JsonV::Number(_, t) => zero_text(t),
                _ => false,
            } {
            assert forall|i: int| 0 <= i < ms.len() implies #[trigger] zero_price(ms[i].1) by {
                let m = ms[i];
            }
        }
    }
}

/// Under several rules a model is free exactly when one of its rules alone
/// makes it free.
pub proof fn lemma_free_by_some_rule(id: Seq<char>, lower_id: Seq<char>, raw: JsonV, r: FreeRules)
    ensures
        is_free_with(id, lower_id, raw, r) <==> {
            ||| r.id_suffix_colon_free && is_free_with(id, lower_id, raw, rules_of(true, false, false, false, false))
            ||| r.id_contains_dash_free && is_free_with(id, lower_id, raw, rules_of(false, true, false, false, false))
            ||| r.id_contains_free && is_free_with(id, lower_id, raw, rules_of(false, false, true, false, false))
            ||| r.field_is_free && is_free_with(id, lower_id, raw, rules_of(false, false, false, true, false))
            ||| r.zero_pricing && is_free_with(id, lower_id, raw, rules_of(false, false, false, false, true))
        },
{
}

/// Whether `v` is a zero price, as `zero_price`.
pub fn is_zero_price(v: &Json) -> (r: bool)
    ensures
        r == zero_price(v@),
{
    match v {
        Json::Str(s) => is_zero_text(s.as_str()),
        Json::Number(n) => is_zero_text(n.text().as_str()),
        _ => false,
    }
}

/// Whether all the prices of a model are zero, as `all_prices_zero`.
pub fn prices_are_zero(raw: &Json) -> (r: bool)
    ensures
        r == all_prices_zero(raw@),
{
    let p = match get_member(raw, PRICING) {
        Some(p) => p,
        None => return false,
    };
    let members = match object_members(p) {
        Some(m) => m,
        None => return false,
    };
    let ghost ms = as_object(p@)->0;
    assert(get(raw@, PRICING@) == Some(p@));
    assert(as_object(p@) == Some(ms));
    if members.len() == 0 {
        return false;
    }
    let mut i: usize = 0;
    while i < members.len()
        invariant
            0 <= i <= members.len(),
            ms == Seq::new(members@.len(), |k: int| (members@[k].key@, members@[k].value@)),
            get(raw@, PRICING@) == Some(p@),
            as_object(p@) == Some(ms),
            forall|k: int| 0 <= k < i ==> #[trigger] zero_price(ms[k].1),
        decreases members.len() - i,
    {
        if !is_zero_price(&members[i].value) {
            assert(!zero_price(ms[i as int].1));
            return false;
        }
        i = i + 1;
    }
    true
}

/// Whether the model `id`, whose id in lowercase is `lower_id`, of raw data
/// `raw`, is free under `rules`, as `is_free_with`.
pub fn is_free_model_with(id: &str, lower_id: &str, raw: &Json, rules: &FreeRules) -> (r: bool)
    ensures
        r == is_free_with(id@, lower_id@, raw@, *rules),
{
    let idc = chars_of(id);
    if rules.id_suffix_colon_free && ends_with_chars(&idc, &chars_of(COLON_FREE)) {
        return true;
    }
    if rules.id_contains_dash_free && contains_chars(&idc, &chars_of(DASH_FREE)) {
        return true;
    }
    if rules.id_contains_free && contains_chars(&chars_of(lower_id), &chars_of(FREE)) {
        return true;
    }
    if rules.field_is_free {
        let flag = match get_member(raw, IS_FREE) {
            Some(v) => bool_value(v),
            None => None,
        };
        if flag == Some(true) {
            return true;
        }
    }
    if rules.zero_pricing && prices_are_zero(raw) {
        return true;
    }
    false
}

/// Whether the model `id`, of raw data `raw`, is free under `rules`, as
/// `is_free`.
pub fn is_free_model(id: &str, raw: &Json, rules: &FreeRules) -> (r: bool)
    ensures
        r == is_free(id@, raw@, *rules),
{
    let lower = to_lowercase(id);
    is_free_model_with(id, lower.as_str(), raw, rules)
}

// ---------------------------------------------------------------------------
// Model lines: their order and columns
// ---------------------------------------------------------------------------

/// A model as its page shows it: its id, its raw data read as JSON, and
/// whether it is free.
pub struct ModelLine {
    pub id: String,
    pub raw: Json,
    pub is_free: bool,
}

/// A model's raw data read as JSON: null when there is none or it does not
/// read.
pub open spec fn raw_json(raw_data: Option<Seq<char>>) -> JsonV {
    match raw_data {
        Some(s) => match crate::json::json_parse(s) {
            Ok(j) => j,
            Err(_) => JsonV::Null,
        },
        None => JsonV::Null,
    }
}

/// Reads a model's raw data, as `raw_json`.
pub fn read_raw(raw_data: &Option<String>) -> (j: Json)
    ensures
        j@ == raw_json(crate::config::opt_text(*raw_data)),
{
    match raw_data {
        Some(s) => match parse_json(s.as_str()) {
            Ok(j) => j,
            Err(_) => Json::Null,
        },
        None => Json::Null,
    }
}

/// The free lines first, then the others, each group in its order: the order
/// that a stable sort by "free before not free" gives.
pub open spec fn free_first(lines: Seq<ModelLine>) -> Seq<ModelLine> {
    lines.filter(|l: ModelLine| l.is_free) + lines.filter(|l: ModelLine| !l.is_free)
}

/// Puts the free lines first, keeping the order within each group.
pub fn order_free_first(lines: Vec<ModelLine>) -> (r: Vec<ModelLine>)
    ensures
        r@ == free_first(lines@),
{
    let ghost all = lines@;
    let ghost pf = |l: ModelLine| l.is_free;
    let ghost pn = |l: ModelLine| !l.is_free;
    let mut free: Vec<ModelLine> = Vec::new();
    let mut paid: Vec<ModelLine> = Vec::new();
    for s in it: lines
        invariant
            all == it.seq(),
            pf == (|l: ModelLine| l.is_free),
            pn == (|l: ModelLine| !l.is_free),
            free@ == all.take(it.index() as int).filter(pf),
            paid@ == all.take(it.index() as int).filter(pn),
    {
        let ghost k = it.index() as int;
        assert(all.take(k + 1) =~= all.take(k).push(s));
        proof {
            all.take(k).lemma_filter_push(s, pf);
            all.take(k).lemma_filter_push(s, pn);
        }
        let ghost bf = all.take(k).filter(pf);
        let ghost bp = all.take(k).filter(pn);
        assert(all.take(k + 1).filter(pf) == if pf(s) {
            bf.push(s)
        } else {
            bf
        });
        assert(all.take(k + 1).filter(pn) == if pn(s) {
            bp.push(s)
        } else {
            bp
        });
        if s.is_free {
            free.push(s);
        } else {
            paid.push(s);
        }
    }
    assert(all.take(all.len() as int) =~= all);
    free.append(&mut paid);
    free
}

/// How many lines are free.
pub fn count_free(lines: &Vec<ModelLine>) -> (n: usize)
    ensures
        n == lines@.filter(|l: ModelLine| l.is_free).len(),
{
    let ghost pf = |l: ModelLine| l.is_free;
    let mut n: usize = 0;
    let mut i: usize = 0;
    assert(lines@.take(0) =~= Seq::<ModelLine>::empty());
    while i < lines.len()
        invariant
            0 <= i <= lines.len(),
            pf == (|l: ModelLine| l.is_free),
            n == lines@.take(i as int).filter(pf).len(),
            n <= i,
        decreases lines.len() - i,
    {
        assert(lines@.take(i + 1) =~= lines@.take(i as int).push(lines@[i as int]));
        proof {
            lines@.take(i as int).lemma_filter_push(lines@[i as int], pf);
        }
        let ghost before = lines@.take(i as int).filter(pf);
        assert(lines@.take(i + 1).filter(pf) == if pf(lines@[i as int]) {
            before.push(lines@[i as int])
        } else {
            before
        });
        if lines[i].is_free {
            n = n + 1;
        }
        i = i + 1;
    }
    assert(lines@.take(i as int) =~= lines@);
    n
}

/// Ordering the lines free-first loses none and adds none: each line occurs
/// as often before as after, and the free ones all come first.
pub proof fn lemma_free_first_permutes(lines: Seq<ModelLine>)
    ensures
        free_first(lines).to_multiset() == lines.to_multiset(),
        free_first(lines).len() == lines.len(),
        forall|i: int, j: int|
            0 <= i < j < lines.len() && !(#[trigger] free_first(lines)[i]).is_free ==> !(
            #[trigger] free_first(lines)[j]).is_free,
    decreases lines.len(),
{
    broadcast use vstd::multiset::group_multiset_axioms;

    let pf = |l: ModelLine| l.is_free;
    let pn = |l: ModelLine| !l.is_free;
    let f = lines.filter(pf);
    let p = lines.filter(pn);
    vstd::seq_lib::lemma_multiset_commutative(f, p);
    if lines.len() > 0 {
        let init = lines.drop_last();
        let x = lines.last();
        lemma_free_first_permutes(init);
        let fi = init.filter(pf);
        let pi = init.filter(pn);
        vstd::seq_lib::lemma_multiset_commutative(fi, pi);
        assert(lines =~= init.push(x));
        init.lemma_filter_push(x, pf);
        init.lemma_filter_push(x, pn);
        vstd::seq_lib::to_multiset_build(init, x);
        if x.is_free {
            vstd::seq_lib::to_multiset_build(fi, x);
            assert(f.to_multiset() =~= fi.to_multiset().insert(x));
            assert(p.to_multiset() =~= pi.to_multiset());
        } else {
            vstd::seq_lib::to_multiset_build(pi, x);
            assert(p.to_multiset() =~= pi.to_multiset().insert(x));
            assert(f.to_multiset() =~= fi.to_multiset());
        }
        assert((f + p).to_multiset() =~= lines.to_multiset());
    } else {
        assert(f =~= Seq::<ModelLine>::empty());
        assert(p =~= Seq::<ModelLine>::empty());
        assert((f + p) =~= lines);
    }
    lemma_filter_all(lines, pf);
    lemma_filter_all(lines, pn);
    let r = free_first(lines);
    assert forall|i: int, j: int|
        0 <= i < j < lines.len() && !(#[trigger] r[i]).is_free implies !(#[trigger] r[j]).is_free by {
        if j < f.len() {
            assert(r[i] == f[i]);
            assert(pf(f[i]));
        } else {
            assert(r[j] == p[j - f.len()]);
            assert(pn(p[j - f.len()]));
        }
    }
}

/// Every item that a filter keeps meets its predicate, and the items kept
/// and the items left add up to all.
proof fn lemma_filter_all(s: Seq<ModelLine>, pred: spec_fn(ModelLine) -> bool)
    ensures
        forall|i: int| 0 <= i < s.filter(pred).len() ==> pred(#[trigger] s.filter(pred)[i]),
        s.filter(pred).len() + s.filter(|l: ModelLine| !pred(l)).len() == s.len(),
    decreases s.len(),
{
    let npred = |l: ModelLine| !pred(l);
    if s.len() > 0 {
        lemma_filter_all(s.drop_last(), pred);
        assert(s =~= s.drop_last().push(s.last()));
        s.drop_last().lemma_filter_push(s.last(), pred);
        s.drop_last().lemma_filter_push(s.last(), npred);
    }
}

// ---------------------------------------------------------------------------
// The columns of a model table
// ---------------------------------------------------------------------------

/// The texts of a list of strings.
pub open spec fn texts(v: Seq<String>) -> Seq<Seq<char>> {
    v.map_values(|s: String| s@)
}

/// The keys of a model's raw data, in order, when it is an object.
pub open spec fn line_keys(raw: JsonV) -> Seq<Seq<char>> {
    match as_object(raw) {
        Some(ms) => ms.map_values(|m: (Seq<char>, JsonV)| m.0),
        None => Seq::empty(),
    }
}

/// A key that gets a column: any but `ID_KEY` and `OBJECT`.
pub open spec fn column_key(k: Seq<char>) -> bool {
    k != ID_KEY@ && k != OBJECT@
}

/// `k` is the key of a column: some model's raw data has it.
pub open spec fn is_column(lines: Seq<ModelLine>, k: Seq<char>) -> bool {
    column_key(k) && exists|i: int| 0 <= i < lines.len() && #[trigger] line_keys(lines[i].raw@).contains(k)
}

/// Each text comes before the next, so none occurs twice.
pub open spec fn strictly_sorted(ks: Seq<Seq<char>>) -> bool {
    forall|i: int, j: int| 0 <= i < j < ks.len() ==> text_lt(#[trigger] ks[i], #[trigger] ks[j])
}

/// Adds `k` to the sorted keys, where it is not there yet.
fn insert_key(keys: &mut Vec<String>, k: String)
    requires
        strictly_sorted(texts(old(keys)@)),
    ensures
        strictly_sorted(texts(final(keys)@)),
        forall|x: Seq<char>| texts(final(keys)@).contains(x) <==> (texts(old(keys)@).contains(x) || x == k@),
{
    let ghost old_keys = texts(keys@);
    let kc = chars_of(k.as_str());
    let mut p: usize = 0;
    while p < keys.len() && text_less(&chars_of(keys[p].as_str()), &kc)
        invariant
            0 <= p <= keys.len(),
            kc@ == k@,
            old_keys == texts(keys@),
            forall|i: int| 0 <= i < p ==> text_lt(#[trigger] old_keys[i], k@),
        decreases keys.len() - p,
    {
        assert(old_keys[p as int] == keys@[p as int]@);
        p = p + 1;
    }
    if p < keys.len() && same_text(keys[p].as_str(), k.as_str()) {
        assert(old_keys[p as int] == k@);
        return;
    }
    let ghost kv = k@;
    proof {
        if p < keys.len() {
            lemma_text_lt_total(old_keys[p as int], kv);
        }
    }
    keys.insert(p, k);
    let ghost nk = texts(keys@);
    assert(nk =~= old_keys.take(p as int) + seq![kv] + old_keys.skip(p as int));
    assert forall|i: int, j: int| 0 <= i < j < nk.len() implies text_lt(#[trigger] nk[i], #[trigger] nk[j]) by {
        if j < p {
        } else if j == p {
            assert(nk[i] == old_keys[i]);
        } else if i < p {
            assert(nk[j] == old_keys[j - 1]);
            assert(text_lt(old_keys[i], kv));
            if j - 1 > p {
                assert(text_lt(old_keys[p as int], old_keys[j - 1]));
            }
            lemma_text_lt_transitive(old_keys[i], kv, old_keys[p as int]);
            if j - 1 > p {
                lemma_text_lt_transitive(old_keys[i], old_keys[p as int], old_keys[j - 1]);
            }
        } else if i == p {
            if j - 1 > p {
                assert(text_lt(old_keys[p as int], old_keys[j - 1]));
                lemma_text_lt_transitive(kv, old_keys[p as int], old_keys[j - 1]);
            }
        } else {
            assert(nk[i] == old_keys[i - 1]);
            assert(nk[j] == old_keys[j - 1]);
        }
    }
    assert forall|x: Seq<char>| nk.contains(x) <==> (old_keys.contains(x) || x == kv) by {
        if nk.contains(x) {
            let i = choose|i: int| 0 <= i < nk.len() && nk[i] == x;
            if i < p {
                assert(old_keys[i] == x);
            } else if i > p {
                assert(old_keys[i - 1] == x);
            }
        }
        if old_keys.contains(x) {
            let i = choose|i: int| 0 <= i < old_keys.len() && old_keys[i] == x;
            if i < p {
                assert(nk[i] == x);
            } else {
                assert(nk[i + 1] == x);
            }
        }
        if x == kv {
            assert(nk[p as int] == x);
        }
    }
}

/// Some line before the `i`-th has the key `x`.
pub open spec fn seen_before(lines: Seq<ModelLine>, i: int, x: Seq<char>) -> bool {
    exists|a: int| 0 <= a < i && #[trigger] line_keys(lines[a].raw@).contains(x)
}

/// One line more brings in its own keys.
proof fn lemma_seen_step(lines: Seq<ModelLine>, i: int, x: Seq<char>)
    requires
        0 <= i < lines.len(),
    ensures
        seen_before(lines, i + 1, x) <==> (seen_before(lines, i, x) || line_keys(
            lines[i].raw@,
        ).contains(x)),
{
    if seen_before(lines, i + 1, x) {
        let a = choose|a: int| 0 <= a < i + 1 && #[trigger] line_keys(lines[a].raw@).contains(x);
        if a < i {
            assert(seen_before(lines, i, x));
        }
    }
    if seen_before(lines, i, x) {
        let a = choose|a: int| 0 <= a < i && #[trigger] line_keys(lines[a].raw@).contains(x);
        assert(0 <= a < i + 1 && line_keys(lines[a].raw@).contains(x));
    }
    if line_keys(lines[i].raw@).contains(x) {
        assert(0 <= i < i + 1 && line_keys(lines[i].raw@).contains(x));
    }
}

/// A prefix one longer holds one item more.
proof fn lemma_take_contains(s: Seq<Seq<char>>, j: int, x: Seq<char>)
    requires
        0 <= j < s.len(),
    ensures
        s.take(j + 1).contains(x) <==> (s.take(j).contains(x) || x == s[j]),
{
    let t0 = s.take(j);
    let t1 = s.take(j + 1);
    if t1.contains(x) {
        let q = choose|q: int| 0 <= q < t1.len() && t1[q] == x;
        if q < j {
            assert(t0[q] == x);
        }
    }
    if t0.contains(x) {
        let q = choose|q: int| 0 <= q < t0.len() && t0[q] == x;
        assert(t1[q] == x);
    }
    if x == s[j] {
        assert(t1[j] == x);
    }
}

/// The keys of the columns of a model table, as its header shows them:
/// those of `is_column`, each once, in the order of `text_lt`.
pub fn column_keys(lines: &Vec<ModelLine>) -> (r: Vec<String>)
    ensures
        strictly_sorted(texts(r@)),
        forall|k: Seq<char>| texts(r@).contains(k) <==> is_column(lines@, k),
{
    let mut keys: Vec<String> = Vec::new();
    let mut i: usize = 0;
    while i < lines.len()
        invariant
            0 <= i <= lines.len(),
            strictly_sorted(texts(keys@)),
            forall|x: Seq<char>|
                #[trigger] texts(keys@).contains(x) <==> (column_key(x) && seen_before(lines@, i as int, x)),
        decreases lines.len() - i,
    {
        let ghost lk = line_keys(lines@[i as int].raw@);
        match object_members(&lines[i].raw) {
            Some(members) => {
                assert(lk =~= members@.map_values(|m: JsonMember| m.key@));
                let mut j: usize = 0;
                assert forall|x: Seq<char>| !lk.take(0).contains(x) by {}
                while j < members.len()
                    invariant
                        0 <= j <= members.len(),
                        i < lines.len(),
                        lk == members@.map_values(|m: JsonMember| m.key@),
                        lk == line_keys(lines@[i as int].raw@),
                        strictly_sorted(texts(keys@)),
                        forall|x: Seq<char>|
                            #[trigger] texts(keys@).contains(x) <==> (column_key(x) && (seen_before(lines@, i as int, x)
                                || lk.take(j as int).contains(x))),
                    decreases members.len() - j,
                {
                    let key = &members[j].key;
                    let ghost before = texts(keys@);
                    assert(lk[j as int] == key@);
                    let is_col = !same_text(key.as_str(), ID_KEY) && !same_text(key.as_str(), OBJECT);
                    if is_col {
                        insert_key(&mut keys, key.clone());
                    }
                    assert forall|x: Seq<char>|
                        #[trigger] texts(keys@).contains(x) <==> (column_key(x) && (seen_before(lines@, i as int, x)
                            || lk.take(j + 1).contains(x))) by {
                        lemma_take_contains(lk, j as int, x);
                        if !is_col {
                            assert(texts(keys@) == before);
                        }
                    }
                    j = j + 1;
                }
                assert(lk.take(j as int) =~= lk);
            },
            None => {
                assert(lk =~= Seq::<Seq<char>>::empty());
            },
        }
        assert forall|x: Seq<char>|
            #[trigger] texts(keys@).contains(x) <==> (column_key(x) && seen_before(lines@, i + 1, x)) by {
            lemma_seen_step(lines@, i as int, x);
        }
        i = i + 1;
    }
    assert forall|k: Seq<char>| texts(keys@).contains(k) <==> is_column(lines@, k) by {
        if seen_before(lines@, lines@.len() as int, k) {
            let a = choose|a: int| 0 <= a < lines@.len() && #[trigger] line_keys(lines@[a].raw@).contains(k);
            assert(0 <= a < lines@.len() && line_keys(lines@[a].raw@).contains(k));
        }
    }
    keys
}

/// A column's label: its key with each underscore replaced by a space.
pub open spec fn column_label(k: Seq<char>) -> Seq<char> {
    replaced(k, UNDERSCORE@, SPACE@)
}

/// A column's label, as `column_label`.
pub fn label_of(k: &str) -> (r: Vec<char>)
    ensures
        r@ == column_label(k@),
{
    proof {
        reveal_strlit("_");
    }
    replace_chars(&chars_of(k), &chars_of(UNDERSCORE), &chars_of(SPACE))
}

// ---------------------------------------------------------------------------
// Cells and escapes
// ---------------------------------------------------------------------------

/// The text of a value in a model's row: a text as it is, a number as
/// `serde_json` writes it, a boolean as "true" or "false", and anything else
/// as its JSON with each double quote written as `QUOTE_ENTITY`.
pub open spec fn cell_text(v: JsonV) -> Seq<char> {
    match v {
        JsonV::Str(s) => s,
        JsonV::Number(_, t) => t,
        JsonV::Bool(b) => if b {
            TRUE_TEXT@
        } else {
            FALSE_TEXT@
        },
        _ => replaced(crate::json::json_text(v), QUOTE@, QUOTE_ENTITY@),
    }
}

/// The cells of the members of a model's raw data, but for `ID_KEY`, in
/// order.
pub open spec fn member_cells(ms: Seq<(Seq<char>, JsonV)>) -> Seq<Seq<char>>
    decreases ms.len(),
{
    if ms.len() == 0 {
        Seq::empty()
    } else {
        member_cells(ms.drop_last()) + if ms.last().0 != ID_KEY@ {
            seq![cell_text(ms.last().1)]
        } else {
            Seq::empty()
        }
    }
}

/// The cells of a model's row after the one with its id.
pub open spec fn row_cells(raw: JsonV) -> Seq<Seq<char>> {
    match as_object(raw) {
        Some(ms) => member_cells(ms),
        None => Seq::empty(),
    }
}

/// The text of a value in a model's row, as `cell_text`.
pub fn cell_of(v: &Json) -> (r: Vec<char>)
    ensures
        r@ == cell_text(v@),
{
    match v {
        Json::Str(s) => chars_of(s.as_str()),
        Json::Number(n) => chars_of(n.text().as_str()),
        Json::Bool(b) => if *b {
            chars_of(TRUE_TEXT)
        } else {
            chars_of(FALSE_TEXT)
        },
        _ => {
            let text = write_json(v);
            proof {
                reveal_strlit("\"");
            }
            replace_chars(&chars_of(text.as_str()), &chars_of(QUOTE), &chars_of(QUOTE_ENTITY))
        },
    }
}

/// The cells of a model's row after the one with its id, as `row_cells`.
pub fn cells_of(raw: &Json) -> (r: Vec<Vec<char>>)
    ensures
        r@.map_values(|c: Vec<char>| c@) == row_cells(raw@),
{
    let mut out: Vec<Vec<char>> = Vec::new();
    match object_members(raw) {
        Some(members) => {
            let ghost ms = as_object(raw@)->0;
            let mut j: usize = 0;
            assert(ms.take(0) =~= Seq::<(Seq<char>, JsonV)>::empty());
            assert(out@.map_values(|c: Vec<char>| c@) =~= Seq::<Seq<char>>::empty());
            while j < members.len()
                invariant
                    0 <= j <= members.len(),
                    ms == Seq::new(members@.len(), |k: int| (members@[k].key@, members@[k].value@)),
                    out@.map_values(|c: Vec<char>| c@) == member_cells(ms.take(j as int)),
                decreases members.len() - j,
            {
                let ghost before = out@;
                assert(ms.take(j + 1).drop_last() =~= ms.take(j as int));
                if !same_text(members[j].key.as_str(), ID_KEY) {
                    let c = cell_of(&members[j].value);
                    let ghost cv = c@;
                    out.push(c);
                    assert(out@.map_values(|c: Vec<char>| c@) =~= before.map_values(
                        |c: Vec<char>| c@,
                    ).push(cv));
                }
                assert(out@.map_values(|c: Vec<char>| c@) =~= member_cells(ms.take(j + 1)));
                j = j + 1;
            }
            assert(ms.take(j as int) =~= ms);
        },
        None => {
            assert(out@.map_values(|c: Vec<char>| c@) =~= Seq::<Seq<char>>::empty());
        },
    }
    out
}

/// A model id as written inside an attribute: double quotes as
/// `QUOTE_ENTITY`, then single quotes as `APOSTROPHE_ENTITY`.
pub open spec fn escape_quotes(s: Seq<char>) -> Seq<char> {
    replaced(replaced(s, QUOTE@, QUOTE_ENTITY@), APOSTROPHE@, APOSTROPHE_ENTITY@)
}

/// A model id as written inside an attribute, as `escape_quotes`.
pub fn escape_id(s: &str) -> (r: Vec<char>)
    ensures
        r@ == escape_quotes(s@),
{
    proof {
        reveal_strlit("\"");
        reveal_strlit("'");
    }
    let once = replace_chars(&chars_of(s), &chars_of(QUOTE), &chars_of(QUOTE_ENTITY));
    replace_chars(&once, &chars_of(APOSTROPHE), &chars_of(APOSTROPHE_ENTITY))
}

/// Replacing never brings in a character that neither the text nor the
/// replacement holds.
proof fn lemma_replaced_keeps_out(s: Seq<char>, pat: Seq<char>, rep: Seq<char>, c: char)
    requires
        pat.len() > 0,
        !s.contains(c),
        !rep.contains(c),
    ensures
        !replaced(s, pat, rep).contains(c),
    decreases s.len(),
{
    if s.len() > 0 {
        if 0 < pat.len() <= s.len() && s.take(pat.len() as int) == pat {
            let rest = s.skip(pat.len() as int);
            assert forall|i: int| 0 <= i < rest.len() implies rest[i] != c by {
                assert(rest[i] == s[i + pat.len()]);
            }
            lemma_replaced_keeps_out(rest, pat, rep, c);
            let r = replaced(s, pat, rep);
            assert(r == rep + replaced(rest, pat, rep));
            assert forall|i: int| 0 <= i < r.len() implies r[i] != c by {
                if i >= rep.len() {
                    assert(r[i] == replaced(rest, pat, rep)[i - rep.len()]);
                }
            }
        } else {
            let rest = s.skip(1);
            assert forall|i: int| 0 <= i < rest.len() implies rest[i] != c by {
                assert(rest[i] == s[i + 1]);
            }
            lemma_replaced_keeps_out(rest, pat, rep, c);
            let r = replaced(s, pat, rep);
            assert(r == seq![s[0]] + replaced(rest, pat, rep));
            assert forall|i: int| 0 <= i < r.len() implies r[i] != c by {
                if i >= 1 {
                    assert(r[i] == replaced(rest, pat, rep)[i - 1]);
                }
            }
        }
    }
}

/// Replacing a character by a text without it leaves none of it.
proof fn lemma_replaced_removes(s: Seq<char>, c: char, rep: Seq<char>)
    requires
        !rep.contains(c),
    ensures
        !replaced(s, seq![c], rep).contains(c),
    decreases s.len(),
{
    if s.len() > 0 {
        let rest = s.skip(1);
        lemma_replaced_removes(rest, c, rep);
        let r = replaced(s, seq![c], rep);
        if s.take(1) == seq![c] {
            assert(r == rep + replaced(rest, seq![c], rep));
            assert forall|i: int| 0 <= i < r.len() implies r[i] != c by {
                if i >= rep.len() {
                    assert(r[i] == replaced(rest, seq![c], rep)[i - rep.len()]);
                }
            }
        } else {
            assert(s[0] != c) by {
                if s[0] == c {
                    assert(s.take(1) =~= seq![c]);
                }
            }
            assert(r == seq![s[0]] + replaced(rest, seq![c], rep));
            assert forall|i: int| 0 <= i < r.len() implies r[i] != c by {
                if i >= 1 {
                    assert(r[i] == replaced(rest, seq![c], rep)[i - 1]);
                }
            }
        }
    }
}

/// An escaped id holds no quote of either kind, so it cannot end the
/// attribute or the script string it is written in.
pub proof fn lemma_escaped_has_no_quotes(s: Seq<char>)
    ensures
        !escape_quotes(s).contains('"'),
        !escape_quotes(s).contains('\''),
{
    reveal_strlit("\"");
    reveal_strlit("&quot;");
    reveal_strlit("'");
    reveal_strlit("&#39;");
    assert(QUOTE@ =~= seq!['"']);
    assert(APOSTROPHE@ =~= seq!['\'']);
    let once = replaced(s, QUOTE@, QUOTE_ENTITY@);
    assert(!QUOTE_ENTITY@.contains('"')) by {
        assert forall|i: int| 0 <= i < QUOTE_ENTITY@.len() implies QUOTE_ENTITY@[i] != '"' by {}
    }
    assert(!APOSTROPHE_ENTITY@.contains('"')) by {
        assert forall|i: int| 0 <= i < APOSTROPHE_ENTITY@.len() implies APOSTROPHE_ENTITY@[i] != '"' by {}
    }
    assert(!APOSTROPHE_ENTITY@.contains('\'')) by {
        assert forall|i: int| 0 <= i < APOSTROPHE_ENTITY@.len() implies APOSTROPHE_ENTITY@[i] != '\'' by {}
    }
    lemma_replaced_removes(s, '"', QUOTE_ENTITY@);
    lemma_replaced_keeps_out(once, APOSTROPHE@, APOSTROPHE_ENTITY@, '"');
    lemma_replaced_removes(once, '\'', APOSTROPHE_ENTITY@);
}

/// The address of a provider's catalogue: its base URL without trailing
/// slashes, then its endpoint.
pub open spec fn api_address(base_url: Seq<char>, endpoint: Seq<char>) -> Seq<char> {
    trim_end_char(base_url, '/') + endpoint
}

/// The address of a provider's catalogue, as `api_address`.
pub fn api_address_of(p: &ProviderConfig) -> (r: Vec<char>)
    ensures
        r@ == api_address(p.base_url@, p.models_endpoint@),
{
    let mut r = trim_end_matching(&chars_of(p.base_url.as_str()), '/');
    push_str(&mut r, p.models_endpoint.as_str());
    r
}

// ---------------------------------------------------------------------------
// The lines of a provider's page
// ---------------------------------------------------------------------------

/// The free rules of the provider named `name`: those of the first provider
/// of that name, none where there is no such provider.
pub open spec fn rules_for(ps: Seq<ProviderConfig>, name: Seq<char>) -> FreeRules {
    match config_index(ps, name) {
        Some(i) => ps[i].free_rules,
        None => FreeRules::none(),
    }
}

/// `lines` are the lines of the page of the provider named `name`: one per
/// model, in order, with its raw data read and whether it is free under the
/// rules of that provider.
pub open spec fn lines_of(
    lines: Seq<ModelLine>,
    name: Seq<char>,
    providers: Seq<ProviderConfig>,
    models: Seq<crate::providers::ModelId>,
) -> bool {
    &&& lines.len() == models.len()
    &&& forall|i: int|
        0 <= i < lines.len() ==> {
            &&& (#[trigger] lines[i]).id@ == models[i].id@
            &&& lines[i].raw@ == raw_json(crate::config::opt_text(models[i].raw_data))
            &&& lines[i].is_free == is_free(models[i].id@, lines[i].raw@, rules_for(providers, name))
        }
}

/// Two lists of lines that show the same models: the same ids, raw data and
/// verdicts, in the same order.
pub open spec fn same_lines(a: Seq<ModelLine>, b: Seq<ModelLine>) -> bool {
    &&& a.len() == b.len()
    &&& forall|i: int|
        0 <= i < a.len() ==> {
            &&& (#[trigger] a[i]).id@ == b[i].id@
            &&& a[i].raw@ == b[i].raw@
            &&& a[i].is_free == b[i].is_free
        }
}

/// Lines built for the same provider from the same models show the same
/// models.
pub proof fn lemma_lines_of_same(
    a: Seq<ModelLine>,
    b: Seq<ModelLine>,
    name: Seq<char>,
    providers: Seq<ProviderConfig>,
    models: Seq<crate::providers::ModelId>,
)
    requires
        lines_of(a, name, providers, models),
        lines_of(b, name, providers, models),
    ensures
        same_lines(a, b),
{
    assert forall|i: int| 0 <= i < a.len() implies {
        &&& (#[trigger] a[i]).id@ == b[i].id@
        &&& a[i].raw@ == b[i].raw@
        &&& a[i].is_free == b[i].is_free
    } by {
        assert(b[i].id@ == models[i].id@);
    }
}

/// Filtering lines that show the same models, by a test that gives the same
/// verdict on each pair, keeps lines that show the same models.
pub proof fn lemma_filter_same(a: Seq<ModelLine>, b: Seq<ModelLine>, pred: spec_fn(ModelLine) -> bool)
    requires
        same_lines(a, b),
        forall|i: int| 0 <= i < a.len() ==> pred(#[trigger] a[i]) == pred(b[i]),
    ensures
        same_lines(a.filter(pred), b.filter(pred)),
    decreases a.len(),
{
    if a.len() > 0 {
        let a0 = a.drop_last();
        let b0 = b.drop_last();
        assert forall|i: int| 0 <= i < a0.len() implies pred(#[trigger] a0[i]) == pred(b0[i]) by {
            assert(a0[i] == a[i] && b0[i] == b[i]);
        }
        assert forall|i: int| 0 <= i < a0.len() implies {
            &&& (#[trigger] a0[i]).id@ == b0[i].id@
            &&& a0[i].raw@ == b0[i].raw@
            &&& a0[i].is_free == b0[i].is_free
        } by {
            assert(a0[i] == a[i] && b0[i] == b[i]);
        }
        lemma_filter_same(a0, b0, pred);
        let x = a.last();
        let y = b.last();
        assert(a =~= a0.push(x));
        assert(b =~= b0.push(y));
        a0.lemma_filter_push(x, pred);
        b0.lemma_filter_push(y, pred);
        assert(a[a.len() - 1] == x && b[b.len() - 1] == y);
        let fa = a.filter(pred);
        let fb = b.filter(pred);
        if pred(x) {
            assert forall|i: int| 0 <= i < fa.len() implies {
                &&& (#[trigger] fa[i]).id@ == fb[i].id@
                &&& fa[i].raw@ == fb[i].raw@
                &&& fa[i].is_free == fb[i].is_free
            } by {
                if i < fa.len() - 1 {
                    assert(fa[i] == a0.filter(pred)[i] && fb[i] == b0.filter(pred)[i]);
                }
            }
        }
    } else {
        a.lemma_filter_len(pred);
        b.lemma_filter_len(pred);
    }
}

/// Lines that show the same models, put free-first, still show the same
/// models, and as many of them are free.
pub proof fn lemma_free_first_same(a: Seq<ModelLine>, b: Seq<ModelLine>)
    requires
        same_lines(a, b),
    ensures
        same_lines(free_first(a), free_first(b)),
        a.filter(|l: ModelLine| l.is_free).len() == b.filter(|l: ModelLine| l.is_free).len(),
{
    let pf = |l: ModelLine| l.is_free;
    let pn = |l: ModelLine| !l.is_free;
    assert forall|i: int| 0 <= i < a.len() implies pf(#[trigger] a[i]) == pf(b[i]) by {}
    assert forall|i: int| 0 <= i < a.len() implies pn(#[trigger] a[i]) == pn(b[i]) by {}
    lemma_filter_same(a, b, pf);
    lemma_filter_same(a, b, pn);
    let (fa, pa) = (a.filter(pf), a.filter(pn));
    let (fb, pb) = (b.filter(pf), b.filter(pn));
    let x = fa + pa;
    let y = fb + pb;
    assert forall|i: int| 0 <= i < x.len() implies {
        &&& (#[trigger] x[i]).id@ == y[i].id@
        &&& x[i].raw@ == y[i].raw@
        &&& x[i].is_free == y[i].is_free
    } by {
        if i < fa.len() {
            assert(x[i] == fa[i] && y[i] == fb[i]);
        } else {
            assert(x[i] == pa[i - fa.len()] && y[i] == pb[i - fa.len()]);
        }
    }
}

/// Lines that show the same models have the same columns.
pub proof fn lemma_columns_same(a: Seq<ModelLine>, b: Seq<ModelLine>)
    requires
        same_lines(a, b),
    ensures
        column_list(a) == column_list(b),
{
    assert forall|k: Seq<char>| is_column(a, k) == is_column(b, k) by {
        if is_column(a, k) {
            let i = choose|i: int| 0 <= i < a.len() && #[trigger] line_keys(a[i].raw@).contains(k);
            assert(a[i].raw@ == b[i].raw@);
            assert(line_keys(b[i].raw@).contains(k));
        }
        if is_column(b, k) {
            let i = choose|i: int| 0 <= i < b.len() && #[trigger] line_keys(b[i].raw@).contains(k);
            assert(a[i].raw@ == b[i].raw@);
            assert(line_keys(a[i].raw@).contains(k));
        }
    }
    assert(column_set(a) =~= column_set(b));
}

/// The lines of the page of the provider named `name`: one per model, in
/// order, with its raw data read and whether it is free under the rules of
/// that provider (see `is_free`).
pub fn model_lines(
    name: &str,
    cfg: &Config,
    models: &Vec<crate::providers::ModelId>,
) -> (r: Vec<ModelLine>)
    ensures
        lines_of(r@, name@, cfg.providers@, models@),
{
    let rules = match find_config(cfg, name) {
        Some(i) => cfg.providers[i].free_rules,
        None => FreeRules::default(),
    };
    let mut r: Vec<ModelLine> = Vec::new();
    let mut i: usize = 0;
    while i < models.len()
        invariant
            0 <= i <= models.len(),
            rules == rules_for(cfg.providers@, name@),
            r@.len() == i,
            forall|k: int|
                0 <= k < i ==> {
                    &&& (#[trigger] r@[k]).id@ == models@[k].id@
                    &&& r@[k].raw@ == raw_json(crate::config::opt_text(models@[k].raw_data))
                    &&& r@[k].is_free == is_free(
                        models@[k].id@,
                        r@[k].raw@,
                        rules,
                    )
                },
        decreases models.len() - i,
    {
        let raw = read_raw(&models[i].raw_data);
        let free = is_free_model(models[i].id.as_str(), &raw, &rules);
        r.push(ModelLine { id: models[i].id.clone(), raw, is_free: free });
        i = i + 1;
    }
    r
}

/// The keys of the columns, as a set.
pub open spec fn column_set(lines: Seq<ModelLine>) -> Set<Seq<char>> {
    Set::new(|k: Seq<char>| is_column(lines, k))
}

/// The texts of a set as a list, each once, in the order of `text_lt`.
pub open spec fn sorted_list(s: Set<Seq<char>>) -> Seq<Seq<char>> {
    choose|ks: Seq<Seq<char>>| strictly_sorted(ks) && forall|k: Seq<char>| #[trigger] ks.contains(k) <==> s.contains(k)
}

/// The keys of the columns, as a list: the texts of `is_column` in the
/// order of `text_lt`.
pub open spec fn column_list(lines: Seq<ModelLine>) -> Seq<Seq<char>> {
    sorted_list(column_set(lines))
}

/// Two sorted lists with the same texts are the same list.
pub proof fn lemma_sorted_unique(a: Seq<Seq<char>>, b: Seq<Seq<char>>)
    requires
        strictly_sorted(a),
        strictly_sorted(b),
        forall|k: Seq<char>| a.contains(k) <==> b.contains(k),
    ensures
        a == b,
    decreases a.len(),
{
    if a.len() == 0 {
        if b.len() > 0 {
            assert(b.contains(b[0]));
        }
        assert(a =~= b);
    } else {
        assert(a.contains(a[0]));
        assert(b.len() > 0);
        assert(b.contains(b[0]));
        let ia = choose|i: int| 0 <= i < a.len() && a[i] == b[0];
        let ib = choose|i: int| 0 <= i < b.len() && b[i] == a[0];
        if ia > 0 && ib > 0 {
            assert(text_lt(a[0], a[ia]));
            assert(text_lt(b[0], b[ib]));
            lemma_text_lt_total(a[0], b[0]);
        }
        if ia > 0 && ib == 0 {
            assert(text_lt(a[0], a[ia]));
            lemma_text_lt_irreflexive(a[0]);
        }
        if ia == 0 && ib > 0 {
            assert(text_lt(b[0], b[ib]));
            lemma_text_lt_irreflexive(b[0]);
        }
        assert(a[0] == b[0]);
        let a1 = a.skip(1);
        let b1 = b.skip(1);
        assert forall|i: int, j: int| 0 <= i < j < a1.len() implies text_lt(#[trigger] a1[i], #[trigger] a1[j]) by {
            assert(a1[i] == a[i + 1] && a1[j] == a[j + 1]);
        }
        assert forall|i: int, j: int| 0 <= i < j < b1.len() implies text_lt(#[trigger] b1[i], #[trigger] b1[j]) by {
            assert(b1[i] == b[i + 1] && b1[j] == b[j + 1]);
        }
        assert forall|k: Seq<char>| a1.contains(k) <==> b1.contains(k) by {
            if a1.contains(k) {
                let i = choose|i: int| 0 <= i < a1.len() && a1[i] == k;
                assert(a[i + 1] == k);
                assert(text_lt(a[0], k));
                lemma_text_lt_irreflexive(k);
                assert(b.contains(k));
                let j = choose|j: int| 0 <= j < b.len() && b[j] == k;
                assert(j != 0);
                assert(b1[j - 1] == k);
            }
            if b1.contains(k) {
                let i = choose|i: int| 0 <= i < b1.len() && b1[i] == k;
                assert(b[i + 1] == k);
                assert(text_lt(b[0], k));
                lemma_text_lt_irreflexive(k);
                assert(a.contains(k));
                let j = choose|j: int| 0 <= j < a.len() && a[j] == k;
                assert(j != 0);
                assert(a1[j - 1] == k);
            }
        }
        lemma_sorted_unique(a1, b1);
        assert(a =~= seq![a[0]] + a1);
        assert(b =~= seq![b[0]] + b1);
    }
}

/// The keys of the columns, as `column_list`.
pub fn column_list_of(lines: &Vec<ModelLine>) -> (r: Vec<String>)
    ensures
        texts(r@) == column_list(lines@),
{
    let r = column_keys(lines);
    proof {
        let ks = texts(r@);
        let cs = column_set(lines@);
        assert(strictly_sorted(ks) && forall|k: Seq<char>| #[trigger] ks.contains(k) <==> cs.contains(k));
        let c = column_list(lines@);
        lemma_sorted_unique(ks, c);
    }
    r
}

} // verus!
