//! The pages: the dashboard of providers, the history of checks, and the
//! table of a provider's models. Each page is stated as the text it is made
//! of, piece by piece.

use vstd::prelude::*;
use crate::catalog::{
    ModelLine,
    QUOTE,
    QUOTE_ENTITY,
    api_address,
    api_address_of,
    cells_of,
    column_label,
    column_list,
    column_list_of,
    config_index,
    count_free,
    escape_id,
    escape_quotes,
    find_config,
    find_status,
    free_first,
    label_of,
    lemma_columns_same,
    lemma_free_first_same,
    lemma_lines_of_same,
    lines_of,
    make_slug,
    order_free_first,
    provider_for_slug_text,
    row_cells,
    same_lines,
    shown,
    slug_text,
    status_index,
    texts,
    visible_statuses,
};
use crate::config::{Config, ProviderConfig, opt_text};
use crate::providers::{CheckEntry, ModelId, ProviderStatus};
use crate::templates::{
    CARD_0,
    CARD_1,
    CARD_2,
    CARD_3,
    CARD_4,
    CARD_5,
    CARD_6,
    CARD_7,
    CARD_8,
    CHECK_ROW_0,
    CHECK_ROW_1,
    CHECK_ROW_2,
    CHECK_ROW_3,
    CHECK_ROW_4,
    CHECK_ROW_5,
    CHECK_ROW_6,
    CHECK_ROW_7,
    CHECK_ROW_8,
    CHECKS_PAGE_0,
    CHECKS_PAGE_1,
    DASHBOARD_0,
    DASHBOARD_1,
    DASHBOARD_2,
    DASHBOARD_3,
    ERROR_DIV_0,
    ERROR_DIV_1,
    ERROR_DIV_2,
    FAIL_ICON,
    KEY_BADGE,
    PASS_ICON,
    API_URL_0,
    API_URL_1,
    API_URL_2,
    API_URL_3,
    CELL_0,
    CELL_1,
    FREE_BADGE,
    ID_CELL_0,
    ID_CELL_1,
    ID_CELL_2,
    ID_CELL_3,
    KEY_REQUIRED_0,
    KEY_REQUIRED_1,
    MODEL_ROW_0,
    MODEL_ROW_1,
    MODEL_ROW_2,
    MODELS_PAGE_0,
    MODELS_PAGE_1,
    MODELS_PAGE_2,
    MODELS_PAGE_3,
    MODELS_PAGE_4,
    MODELS_PAGE_5,
    MODELS_PAGE_6,
    MODELS_PAGE_7,
    MODELS_PAGE_8,
    MODELS_PAGE_9,
    MODELS_PAGE_10,
    MODELS_PAGE_11,
    MODELS_PAGE_12,
    MODELS_PAGE_13,
};
use crate::text::{
    chars_of,
    decimal,
    has_sub,
    occurs_at,
    decimal_int,
    i64_text,
    push_str,
    replace_chars,
    replaced,
    string_of,
    u64_text,
};

verus! {

/// What stands where there is no value.
pub const EM_DASH: &'static str = "—";

/// The unit after a duration.
pub const MS: &'static str = "ms";

/// The class of a healthy provider.
pub const HEALTHY: &'static str = "healthy";

/// The class of a provider that is down.
pub const DOWN: &'static str = "down";

/// The class of a check that passed.
pub const CHECK_OK: &'static str = "check-ok";

/// The class of a check that failed.
pub const CHECK_FAIL: &'static str = "check-fail";

/// The class of the row of a free model.
pub const TAB_FREE: &'static str = "tab-free";

/// The class of the row of a model that is not free.
pub const TAB_PAID: &'static str = "tab-paid";

/// The first cell of the header of a model table.
pub const MODEL_ID_HEADER: &'static str = "<th>Model ID</th>";

/// What opens a cell of the header.
pub const TH_OPEN: &'static str = "<th>";

/// What closes a cell of the header.
pub const TH_CLOSE: &'static str = "</th>";

/// The link of a provider that has no address.
pub const HASH: &'static str = "#";

// ---------------------------------------------------------------------------
// Small pieces
// ---------------------------------------------------------------------------

/// An optional text, or `EM_DASH`.
pub open spec fn or_dash(o: Option<Seq<char>>) -> Seq<char> {
    match o {
        Some(s) => s,
        None => EM_DASH@,
    }
}

/// An optional text, or nothing.
pub open spec fn or_empty(o: Option<Seq<char>>) -> Seq<char> {
    match o {
        Some(s) => s,
        None => Seq::empty(),
    }
}

/// A count, or `EM_DASH`.
pub open spec fn count_text(o: Option<u64>) -> Seq<char> {
    match o {
        Some(n) => decimal(n as nat),
        None => EM_DASH@,
    }
}

/// A duration in milliseconds, or `EM_DASH`.
pub open spec fn millis_text(o: Option<u64>) -> Seq<char> {
    match o {
        Some(n) => decimal(n as nat) + MS@,
        None => EM_DASH@,
    }
}

/// A stored count, or `EM_DASH`.
pub open spec fn stored_count_text(o: Option<i64>) -> Seq<char> {
    match o {
        Some(n) => decimal_int(n as int),
        None => EM_DASH@,
    }
}

/// A stored duration in milliseconds, or `EM_DASH`.
pub open spec fn stored_millis_text(o: Option<i64>) -> Seq<char> {
    match o {
        Some(n) => decimal_int(n as int) + MS@,
        None => EM_DASH@,
    }
}

/// The class that shows a provider's health.
pub open spec fn health_class(healthy: bool) -> Seq<char> {
    if healthy {
        HEALTHY@
    } else {
        DOWN@
    }
}

/// The box with a provider's error, when it has a non-empty one.
pub open spec fn error_div(e: Option<Seq<char>>) -> Seq<char> {
    let t = or_empty(e);
    if t.len() > 0 {
        ERROR_DIV_0@ + t + ERROR_DIV_1@ + t + ERROR_DIV_2@
    } else {
        Seq::empty()
    }
}

/// Appends a text.
fn put(out: &mut Vec<char>, s: &str)
    ensures
        final(out)@ == old(out)@ + s@,
{
    push_str(out, s);
}

/// Appends characters.
fn put_chars(out: &mut Vec<char>, s: &Vec<char>)
    ensures
        final(out)@ == old(out)@ + s@,
{
    let mut c = s.clone();
    out.append(&mut c);
}

/// Appends an optional text, or `EM_DASH`.
fn put_or_dash(out: &mut Vec<char>, o: &Option<String>)
    ensures
        final(out)@ == old(out)@ + or_dash(opt_text(*o)),
{
    match o {
        Some(s) => put(out, s.as_str()),
        None => put(out, EM_DASH),
    }
}

/// Appends a count, or `EM_DASH`.
fn put_count(out: &mut Vec<char>, o: Option<u64>)
    ensures
        final(out)@ == old(out)@ + count_text(o),
{
    match o {
        Some(n) => put_chars(out, &u64_text(n)),
        None => put(out, EM_DASH),
    }
}

/// Appends a duration, or `EM_DASH`.
fn put_millis(out: &mut Vec<char>, o: Option<u64>)
    ensures
        final(out)@ == old(out)@ + millis_text(o),
{
    match o {
        Some(n) => {
            let mut t = u64_text(n);
            push_str(&mut t, MS);
            put_chars(out, &t);
        },
        None => put(out, EM_DASH),
    }
}

/// Appends a stored count, or `EM_DASH`.
fn put_stored_count(out: &mut Vec<char>, o: Option<i64>)
    ensures
        final(out)@ == old(out)@ + stored_count_text(o),
{
    match o {
        Some(n) => put_chars(out, &i64_text(n)),
        None => put(out, EM_DASH),
    }
}

/// Appends a stored duration, or `EM_DASH`.
fn put_stored_millis(out: &mut Vec<char>, o: Option<i64>)
    ensures
        final(out)@ == old(out)@ + stored_millis_text(o),
{
    match o {
        Some(n) => {
            let mut t = i64_text(n);
            push_str(&mut t, MS);
            put_chars(out, &t);
        },
        None => put(out, EM_DASH),
    }
}

/// Appends the box with an error, as `error_div`.
fn put_error_div(out: &mut Vec<char>, e: &Option<String>)
    ensures
        final(out)@ == old(out)@ + error_div(opt_text(*e)),
{
    match e {
        Some(t) => {
            if chars_of(t.as_str()).len() > 0 {
                let ghost o = out@;
                put(out, ERROR_DIV_0);
                put(out, t.as_str());
                put(out, ERROR_DIV_1);
                put(out, t.as_str());
                put(out, ERROR_DIV_2);
                assert(out@ =~= o + (ERROR_DIV_0@ + t@ + ERROR_DIV_1@ + t@ + ERROR_DIV_2@));
            } else {
                assert(out@ =~= old(out)@ + error_div(opt_text(*e)));
            }
        },
        None => {
            assert(out@ =~= old(out)@ + error_div(opt_text(*e)));
        },
    }
}

// ---------------------------------------------------------------------------
// The dashboard and the history of checks
// ---------------------------------------------------------------------------

/// A provider's card on the dashboard.
pub open spec fn card(s: ProviderStatus) -> Seq<char> {
    CARD_0@ + slug_text(s.name@) + CARD_1@ + s.name@ + CARD_2@ + health_class(s.is_healthy)
        + CARD_3@ + count_text(s.model_count) + CARD_4@ + millis_text(s.response_time_ms) + CARD_5@
        + or_dash(opt_text(s.last_check_at)) + CARD_6@ + (if s.requires_key {
        KEY_BADGE@
    } else {
        Seq::empty()
    }) + CARD_7@ + error_div(opt_text(s.error_message)) + CARD_8@
}

/// The cards of the providers, in order.
pub open spec fn cards(ss: Seq<ProviderStatus>) -> Seq<char>
    decreases ss.len(),
{
    if ss.len() == 0 {
        Seq::empty()
    } else {
        cards(ss.drop_last()) + card(ss.last())
    }
}

/// The mark of a check's outcome.
pub open spec fn check_icon(ok: bool) -> Seq<char> {
    if ok {
        PASS_ICON@
    } else {
        FAIL_ICON@
    }
}

/// The class of a row of the table of checks.
pub open spec fn check_class(ok: bool) -> Seq<char> {
    if ok {
        CHECK_OK@
    } else {
        CHECK_FAIL@
    }
}

/// A row of the table of checks.
pub open spec fn check_row(c: CheckEntry) -> Seq<char> {
    let err = or_empty(opt_text(c.error_message));
    CHECK_ROW_0@ + check_class(c.is_healthy) + CHECK_ROW_1@ + c.provider_name@ + CHECK_ROW_2@
        + c.checked_at@ + CHECK_ROW_3@ + check_icon(c.is_healthy) + CHECK_ROW_4@
        + stored_millis_text(c.response_time_ms) + CHECK_ROW_5@ + stored_count_text(c.model_count)
        + CHECK_ROW_6@ + err + CHECK_ROW_7@ + err + CHECK_ROW_8@
}

/// The rows of the table of checks, in order.
pub open spec fn check_rows(cs: Seq<CheckEntry>) -> Seq<char>
    decreases cs.len(),
{
    if cs.len() == 0 {
        Seq::empty()
    } else {
        check_rows(cs.drop_last()) + check_row(cs.last())
    }
}

/// The dashboard: the number of providers shown, their cards, and the
/// table of the latest checks.
pub open spec fn dashboard_text(
    providers: Seq<ProviderConfig>,
    statuses: Seq<ProviderStatus>,
    checks: Seq<CheckEntry>,
) -> Seq<char> {
    let ss = shown(providers, statuses);
    DASHBOARD_0@ + decimal(ss.len()) + DASHBOARD_1@ + cards(ss) + DASHBOARD_2@ + check_rows(checks)
        + DASHBOARD_3@
}

/// The page of all checks.
pub open spec fn checks_page_text(checks: Seq<CheckEntry>) -> Seq<char> {
    CHECKS_PAGE_0@ + check_rows(checks) + CHECKS_PAGE_1@
}

/// Appends `s` when `cond` holds.
fn put_if(out: &mut Vec<char>, cond: bool, s: &str)
    ensures
        final(out)@ == old(out)@ + if cond {
            s@
        } else {
            Seq::<char>::empty()
        },
{
    if cond {
        put(out, s);
    } else {
        assert(out@ =~= out@ + Seq::<char>::empty());
    }
}

/// A provider's card, as `card`.
fn card_of(s: &ProviderStatus) -> (c: Vec<char>)
    ensures
        c@ == card(*s),
{
    let mut c: Vec<char> = Vec::new();
    put(&mut c, CARD_0);
    assert(c@ =~= CARD_0@);
    let slug = make_slug(s.name.as_str());
    put(&mut c, slug.as_str());
    put(&mut c, CARD_1);
    put(&mut c, s.name.as_str());
    put(&mut c, CARD_2);
    if s.is_healthy {
        put(&mut c, HEALTHY);
    } else {
        put(&mut c, DOWN);
    }
    put(&mut c, CARD_3);
    put_count(&mut c, s.model_count);
    put(&mut c, CARD_4);
    put_millis(&mut c, s.response_time_ms);
    put(&mut c, CARD_5);
    put_or_dash(&mut c, &s.last_check_at);
    put(&mut c, CARD_6);
    put_if(&mut c, s.requires_key, KEY_BADGE);
    put(&mut c, CARD_7);
    put_error_div(&mut c, &s.error_message);
    put(&mut c, CARD_8);
    c
}

/// A row of the table of checks, as `check_row`.
fn check_row_of(c: &CheckEntry) -> (r: Vec<char>)
    ensures
        r@ == check_row(*c),
{
    let err: Vec<char> = match &c.error_message {
        Some(e) => chars_of(e.as_str()),
        None => Vec::new(),
    };
    assert(err@ =~= or_empty(opt_text(c.error_message)));
    let mut r: Vec<char> = Vec::new();
    put(&mut r, CHECK_ROW_0);
    assert(r@ =~= CHECK_ROW_0@);
    if c.is_healthy {
        put(&mut r, CHECK_OK);
    } else {
        put(&mut r, CHECK_FAIL);
    }
    put(&mut r, CHECK_ROW_1);
    put(&mut r, c.provider_name.as_str());
    put(&mut r, CHECK_ROW_2);
    put(&mut r, c.checked_at.as_str());
    put(&mut r, CHECK_ROW_3);
    if c.is_healthy {
        put(&mut r, PASS_ICON);
    } else {
        put(&mut r, FAIL_ICON);
    }
    put(&mut r, CHECK_ROW_4);
    put_stored_millis(&mut r, c.response_time_ms);
    put(&mut r, CHECK_ROW_5);
    put_stored_count(&mut r, c.model_count);
    put(&mut r, CHECK_ROW_6);
    put_chars(&mut r, &err);
    put(&mut r, CHECK_ROW_7);
    put_chars(&mut r, &err);
    put(&mut r, CHECK_ROW_8);
    r
}

/// Appends the rows of the table of checks, as `check_rows`.
fn put_check_rows(out: &mut Vec<char>, checks: &Vec<CheckEntry>)
    ensures
        final(out)@ == old(out)@ + check_rows(checks@),
{
    let ghost o = out@;
    let mut i: usize = 0;
    assert(checks@.take(0) =~= Seq::<CheckEntry>::empty());
    assert(out@ =~= o + check_rows(checks@.take(0)));
    while i < checks.len()
        invariant
            0 <= i <= checks.len(),
            out@ == o + check_rows(checks@.take(i as int)),
        decreases checks.len() - i,
    {
        put_chars(out, &check_row_of(&checks[i]));
        assert(checks@.take(i + 1).drop_last() =~= checks@.take(i as int));
        assert(out@ =~= o + check_rows(checks@.take(i + 1)));
        i = i + 1;
    }
    assert(checks@.take(i as int) =~= checks@);
}

/// Appends the cards of the providers, as `cards`.
fn put_cards(out: &mut Vec<char>, ss: &Vec<ProviderStatus>)
    ensures
        final(out)@ == old(out)@ + cards(ss@),
{
    let ghost o = out@;
    let mut i: usize = 0;
    assert(ss@.take(0) =~= Seq::<ProviderStatus>::empty());
    assert(out@ =~= o + cards(ss@.take(0)));
    while i < ss.len()
        invariant
            0 <= i <= ss.len(),
            out@ == o + cards(ss@.take(i as int)),
        decreases ss.len() - i,
    {
        put_chars(out, &card_of(&ss[i]));
        assert(ss@.take(i + 1).drop_last() =~= ss@.take(i as int));
        assert(out@ =~= o + cards(ss@.take(i + 1)));
        i = i + 1;
    }
    assert(ss@.take(i as int) =~= ss@);
}

/// The dashboard, given all the stored statuses and the latest checks, as
/// `dashboard_text`: the providers that a disabled provider shares the name
/// of are left out.
pub fn dashboard_page(statuses: Vec<ProviderStatus>, cfg: &Config, checks: &Vec<CheckEntry>) -> (html: String)
    ensures
        html@ == dashboard_text(cfg.providers@, statuses@, checks@),
{
    let ss = visible_statuses(statuses, cfg);
    let mut out: Vec<char> = Vec::new();
    put(&mut out, DASHBOARD_0);
    put_chars(&mut out, &u64_text(ss.len() as u64));
    put(&mut out, DASHBOARD_1);
    put_cards(&mut out, &ss);
    put(&mut out, DASHBOARD_2);
    put_check_rows(&mut out, checks);
    put(&mut out, DASHBOARD_3);
    assert(out@ =~= dashboard_text(cfg.providers@, statuses@, checks@));
    string_of(&out)
}

/// The page of all checks, as `checks_page_text`.
pub fn checks_page(checks: &Vec<CheckEntry>) -> (html: String)
    ensures
        html@ == checks_page_text(checks@),
{
    let mut out: Vec<char> = Vec::new();
    put(&mut out, CHECKS_PAGE_0);
    put_check_rows(&mut out, checks);
    put(&mut out, CHECKS_PAGE_1);
    assert(out@ =~= checks_page_text(checks@));
    string_of(&out)
}

// ---------------------------------------------------------------------------
// The page of a provider's models
// ---------------------------------------------------------------------------

/// The class of a model's row.
pub open spec fn tab_class(free: bool) -> Seq<char> {
    if free {
        TAB_FREE@
    } else {
        TAB_PAID@
    }
}

/// The badge of a free model, or nothing.
pub open spec fn free_badge(free: bool) -> Seq<char> {
    if free {
        FREE_BADGE@
    } else {
        Seq::empty()
    }
}

/// The cells after the id, each in its own `CELL_0` .. `CELL_1`.
pub open spec fn cells_html(cs: Seq<Seq<char>>) -> Seq<char>
    decreases cs.len(),
{
    if cs.len() == 0 {
        Seq::empty()
    } else {
        cells_html(cs.drop_last()) + CELL_0@ + cs.last() + CELL_1@
    }
}

/// The cell with a model's id: the escaped id twice, then its badge.
pub open spec fn id_cell(l: ModelLine) -> Seq<char> {
    ID_CELL_0@ + escape_quotes(l.id@) + ID_CELL_1@ + escape_quotes(l.id@) + ID_CELL_2@ + free_badge(
        l.is_free,
    ) + ID_CELL_3@
}

/// A model's row.
pub open spec fn model_row(l: ModelLine) -> Seq<char> {
    MODEL_ROW_0@ + tab_class(l.is_free) + MODEL_ROW_1@ + id_cell(l) + cells_html(row_cells(l.raw@))
        + MODEL_ROW_2@
}

/// The rows of the models, in order.
pub open spec fn model_rows(ls: Seq<ModelLine>) -> Seq<char>
    decreases ls.len(),
{
    if ls.len() == 0 {
        Seq::empty()
    } else {
        model_rows(ls.drop_last()) + model_row(ls.last())
    }
}

/// The labels of the columns after the first, each in a header cell.
pub open spec fn header_labels(keys: Seq<Seq<char>>) -> Seq<char>
    decreases keys.len(),
{
    if keys.len() == 0 {
        Seq::empty()
    } else {
        header_labels(keys.drop_last()) + TH_OPEN@ + column_label(keys.last()) + TH_CLOSE@
    }
}

/// The status of the page's provider, if it has one.
pub open spec fn page_status(ss: Seq<ProviderStatus>, name: Seq<char>) -> Option<ProviderStatus> {
    match status_index(ss, name) {
        Some(i) => Some(ss[i]),
        None => None,
    }
}

/// The configuration of the page's provider, if it has one.
pub open spec fn page_config(ps: Seq<ProviderConfig>, name: Seq<char>) -> Option<ProviderConfig> {
    match config_index(ps, name) {
        Some(i) => Some(ps[i]),
        None => None,
    }
}

/// The latency shown: the last response time (0 where there is none) in
/// milliseconds, or `EM_DASH` for a provider without a status.
pub open spec fn latency_text(st: Option<ProviderStatus>) -> Seq<char> {
    match st {
        Some(s) => decimal(
            match s.response_time_ms {
                Some(n) => n as nat,
                None => 0,
            },
        ) + MS@,
        None => EM_DASH@,
    }
}

/// The provider's health as shown: down for a provider without a status.
pub open spec fn page_healthy(st: Option<ProviderStatus>) -> bool {
    match st {
        Some(s) => s.is_healthy,
        None => false,
    }
}

/// The link to the provider: its base URL, or `HASH`.
pub open spec fn provider_link(pc: Option<ProviderConfig>) -> Seq<char> {
    match pc {
        Some(p) => p.base_url@,
        None => HASH@,
    }
}

/// The badge naming the key the provider needs, if it needs one.
pub open spec fn key_required(pc: Option<ProviderConfig>) -> Seq<char> {
    match pc {
        Some(p) => match p.api_key_env {
            Some(k) => KEY_REQUIRED_0@ + k@ + KEY_REQUIRED_1@,
            None => Seq::empty(),
        },
        None => Seq::empty(),
    }
}

/// The box with the address of the provider's catalogue, its double quotes
/// escaped, when that address is not empty.
pub open spec fn api_url_box(pc: Option<ProviderConfig>) -> Seq<char> {
    let a = match pc {
        Some(p) => api_address(p.base_url@, p.models_endpoint@),
        None => Seq::empty(),
    };
    let e = replaced(a, QUOTE@, QUOTE_ENTITY@);
    if a.len() > 0 {
        API_URL_0@ + e + API_URL_1@ + e + API_URL_2@ + e + API_URL_3@
    } else {
        Seq::empty()
    }
}

/// The page of the models of the provider named `name`: its health, the
/// number of models, its latency, link, key badge and catalogue address, the
/// number of free models, the column labels, then the rows, free ones first.
pub open spec fn models_page_text(
    name: Seq<char>,
    statuses: Seq<ProviderStatus>,
    providers: Seq<ProviderConfig>,
    lines: Seq<ModelLine>,
) -> Seq<char> {
    let st = page_status(statuses, name);
    let pc = page_config(providers, name);
    MODELS_PAGE_0@ + name + MODELS_PAGE_1@ + name + MODELS_PAGE_2@ + health_class(page_healthy(st))
        + MODELS_PAGE_3@ + decimal(lines.len()) + MODELS_PAGE_4@ + latency_text(st) + MODELS_PAGE_5@
        + provider_link(pc) + MODELS_PAGE_6@ + provider_link(pc) + MODELS_PAGE_7@ + key_required(pc)
        + MODELS_PAGE_8@ + api_url_box(pc) + MODELS_PAGE_9@ + decimal(lines.len()) + MODELS_PAGE_10@
        + decimal(lines.filter(|l: ModelLine| l.is_free).len()) + MODELS_PAGE_11@ + MODEL_ID_HEADER@
        + header_labels(column_list(lines)) + MODELS_PAGE_12@ + model_rows(free_first(lines))
        + MODELS_PAGE_13@
}

/// Lines that show the same models give the same rows.
proof fn lemma_rows_same(a: Seq<ModelLine>, b: Seq<ModelLine>)
    requires
        same_lines(a, b),
    ensures
        model_rows(a) == model_rows(b),
    decreases a.len(),
{
    if a.len() > 0 {
        let a0 = a.drop_last();
        let b0 = b.drop_last();
        assert forall|i: int| 0 <= i < a0.len() implies {
            &&& (#[trigger] a0[i]).id@ == b0[i].id@
            &&& a0[i].raw@ == b0[i].raw@
            &&& a0[i].is_free == b0[i].is_free
        } by {
            assert(a0[i] == a[i] && b0[i] == b[i]);
        }
        lemma_rows_same(a0, b0);
        assert(a[a.len() - 1] == a.last() && b[b.len() - 1] == b.last());
    }
}

/// The page of a provider's models is made only from what the database and
/// the configuration hold: the stored statuses, the slug of the address, the
/// configured providers and the stored models. Any two lists of lines built
/// from those (see `lines_of`) give the same page, so nothing read from the
/// environment or a token file, a key or a token, has a way onto it.
pub proof fn lemma_models_page_from_stored_data(
    statuses: Seq<ProviderStatus>,
    slug: Seq<char>,
    providers: Seq<ProviderConfig>,
    models: Seq<ModelId>,
    a: Seq<ModelLine>,
    b: Seq<ModelLine>,
)
    requires
        lines_of(a, provider_for_slug_text(statuses, slug), providers, models),
        lines_of(b, provider_for_slug_text(statuses, slug), providers, models),
    ensures
        models_page_text(provider_for_slug_text(statuses, slug), statuses, providers, a)
            == models_page_text(provider_for_slug_text(statuses, slug), statuses, providers, b),
{
    lemma_lines_of_same(a, b, provider_for_slug_text(statuses, slug), providers, models);
    lemma_free_first_same(a, b);
    lemma_columns_same(a, b);
    lemma_rows_same(free_first(a), free_first(b));
}

/// The dashboard begins by saying how many providers it monitors: the number
/// of statuses shown, those of no disabled provider's name.
pub proof fn lemma_dashboard_count(
    providers: Seq<ProviderConfig>,
    statuses: Seq<ProviderStatus>,
    checks: Seq<CheckEntry>,
)
    ensures
        ({
            let head = DASHBOARD_0@ + decimal(shown(providers, statuses).len()) + DASHBOARD_1@;
            head.len() <= dashboard_text(providers, statuses, checks).len() && dashboard_text(
                providers,
                statuses,
                checks,
            ).take(head.len() as int) == head
        }),
{
    let ss = shown(providers, statuses);
    let head = DASHBOARD_0@ + decimal(ss.len()) + DASHBOARD_1@;
    let tail = cards(ss) + DASHBOARD_2@ + check_rows(checks) + DASHBOARD_3@;
    assert(dashboard_text(providers, statuses, checks) =~= head + tail);
    assert((head + tail).take(head.len() as int) =~= head);
}

/// A provider's card shows its status dot as `HEALTHY` exactly when the
/// provider is healthy, and as `DOWN` otherwise.
pub proof fn lemma_card_health(s: ProviderStatus)
    ensures
        has_sub(card(s), CARD_2@ + (if s.is_healthy {
            HEALTHY@
        } else {
            DOWN@
        }) + CARD_3@),
{
    let pre = CARD_0@ + slug_text(s.name@) + CARD_1@ + s.name@;
    let pat = CARD_2@ + (if s.is_healthy {
        HEALTHY@
    } else {
        DOWN@
    }) + CARD_3@;
    let post = count_text(s.model_count) + CARD_4@ + millis_text(s.response_time_ms) + CARD_5@
        + or_dash(opt_text(s.last_check_at)) + CARD_6@ + (if s.requires_key {
        KEY_BADGE@
    } else {
        Seq::empty()
    }) + CARD_7@ + error_div(opt_text(s.error_message)) + CARD_8@;
    assert(card(s) =~= pre + pat + post);
    assert(card(s).subrange(pre.len() as int, (pre.len() + pat.len()) as int) =~= pat);
    assert(occurs_at(card(s), pat, pre.len() as int));
}

/// A row of the table of checks begins with its class, the provider, the
/// time and the mark of the outcome: `CHECK_OK` and `PASS_ICON` when the
/// check was healthy, `CHECK_FAIL` and `FAIL_ICON` when it was not, so the
/// mark always agrees with the class.
pub proof fn lemma_check_row_marks(c: CheckEntry)
    ensures
        ({
            let head = CHECK_ROW_0@ + (if c.is_healthy {
                CHECK_OK@
            } else {
                CHECK_FAIL@
            }) + CHECK_ROW_1@ + c.provider_name@ + CHECK_ROW_2@ + c.checked_at@ + CHECK_ROW_3@ + (
            if c.is_healthy {
                PASS_ICON@
            } else {
                FAIL_ICON@
            });
            head.len() <= check_row(c).len() && check_row(c).take(head.len() as int) == head
        }),
{
    let head = CHECK_ROW_0@ + (if c.is_healthy {
        CHECK_OK@
    } else {
        CHECK_FAIL@
    }) + CHECK_ROW_1@ + c.provider_name@ + CHECK_ROW_2@ + c.checked_at@ + CHECK_ROW_3@ + (
    if c.is_healthy {
        PASS_ICON@
    } else {
        FAIL_ICON@
    });
    let err = or_empty(opt_text(c.error_message));
    let tail = CHECK_ROW_4@ + stored_millis_text(c.response_time_ms) + CHECK_ROW_5@
        + stored_count_text(c.model_count) + CHECK_ROW_6@ + err + CHECK_ROW_7@ + err + CHECK_ROW_8@;
    assert(check_row(c) =~= head + tail);
    assert((head + tail).take(head.len() as int) =~= head);
}

/// The page of a provider's models says "N models" with N the number of its
/// lines, and its tabs count all the lines, then the free ones: the All tab
/// shows the number of lines and the Free tab the number of free lines.
#[verifier::rlimit(80)]
pub proof fn lemma_models_page_counts(
    name: Seq<char>,
    statuses: Seq<ProviderStatus>,
    providers: Seq<ProviderConfig>,
    lines: Seq<ModelLine>,
)
    ensures
        has_sub(
            models_page_text(name, statuses, providers, lines),
            MODELS_PAGE_3@ + decimal(lines.len()) + MODELS_PAGE_4@,
        ),
        has_sub(
            models_page_text(name, statuses, providers, lines),
            MODELS_PAGE_9@ + decimal(lines.len()) + MODELS_PAGE_10@ + decimal(
                lines.filter(|l: ModelLine| l.is_free).len(),
            ) + MODELS_PAGE_11@,
        ),
{
    let st = page_status(statuses, name);
    let pc = page_config(providers, name);
    let text = models_page_text(name, statuses, providers, lines);
    let pre1 = MODELS_PAGE_0@ + name + MODELS_PAGE_1@ + name + MODELS_PAGE_2@ + health_class(
        page_healthy(st),
    );
    let pat1 = MODELS_PAGE_3@ + decimal(lines.len()) + MODELS_PAGE_4@;
    let pre2 = pre1 + pat1 + latency_text(st) + MODELS_PAGE_5@ + provider_link(pc) + MODELS_PAGE_6@
        + provider_link(pc) + MODELS_PAGE_7@ + key_required(pc) + MODELS_PAGE_8@ + api_url_box(pc);
    let pat2 = MODELS_PAGE_9@ + decimal(lines.len()) + MODELS_PAGE_10@ + decimal(
        lines.filter(|l: ModelLine| l.is_free).len(),
    ) + MODELS_PAGE_11@;
    let post = MODEL_ID_HEADER@ + header_labels(column_list(lines)) + MODELS_PAGE_12@ + model_rows(
        free_first(lines),
    ) + MODELS_PAGE_13@;
    assert(text =~= pre2 + pat2 + post);
    assert(text.subrange(pre1.len() as int, (pre1.len() + pat1.len()) as int) =~= pat1);
    assert(occurs_at(text, pat1, pre1.len() as int));
    assert(text.subrange(pre2.len() as int, (pre2.len() + pat2.len()) as int) =~= pat2);
    assert(occurs_at(text, pat2, pre2.len() as int));
}

/// Appends the cells after the id, as `cells_html`.
fn put_cells(out: &mut Vec<char>, cells: &Vec<Vec<char>>)
    ensures
        final(out)@ == old(out)@ + cells_html(cells@.map_values(|c: Vec<char>| c@)),
{
    let ghost o = out@;
    let ghost cs = cells@.map_values(|c: Vec<char>| c@);
    let mut i: usize = 0;
    assert(cs.take(0) =~= Seq::<Seq<char>>::empty());
    assert(out@ =~= o + cells_html(cs.take(0)));
    while i < cells.len()
        invariant
            0 <= i <= cells.len(),
            cs == cells@.map_values(|c: Vec<char>| c@),
            out@ == o + cells_html(cs.take(i as int)),
        decreases cells.len() - i,
    {
        let ghost before = out@;
        put(out, CELL_0);
        put_chars(out, &cells[i]);
        put(out, CELL_1);
        assert(cs.take(i + 1).drop_last() =~= cs.take(i as int));
        assert(cs.take(i + 1).last() == cells@[i as int]@);
        assert(out@ =~= o + cells_html(cs.take(i + 1)));
        i = i + 1;
    }
    assert(cs.take(i as int) =~= cs);
}

/// The cell with a model's id, as `id_cell`.
fn id_cell_of(l: &ModelLine) -> (c: Vec<char>)
    ensures
        c@ == id_cell(*l),
{
    let esc = escape_id(l.id.as_str());
    let mut c: Vec<char> = Vec::new();
    put(&mut c, ID_CELL_0);
    assert(c@ =~= ID_CELL_0@);
    put_chars(&mut c, &esc);
    put(&mut c, ID_CELL_1);
    put_chars(&mut c, &esc);
    put(&mut c, ID_CELL_2);
    put_if(&mut c, l.is_free, FREE_BADGE);
    put(&mut c, ID_CELL_3);
    c
}

/// A model's row, as `model_row`.
fn model_row_of(l: &ModelLine) -> (r: Vec<char>)
    ensures
        r@ == model_row(*l),
{
    let mut r: Vec<char> = Vec::new();
    put(&mut r, MODEL_ROW_0);
    assert(r@ =~= MODEL_ROW_0@);
    if l.is_free {
        put(&mut r, TAB_FREE);
    } else {
        put(&mut r, TAB_PAID);
    }
    put(&mut r, MODEL_ROW_1);
    put_chars(&mut r, &id_cell_of(l));
    put_cells(&mut r, &cells_of(&l.raw));
    put(&mut r, MODEL_ROW_2);
    r
}

/// Appends the rows of the models, as `model_rows`.
fn put_model_rows(out: &mut Vec<char>, ls: &Vec<ModelLine>)
    ensures
        final(out)@ == old(out)@ + model_rows(ls@),
{
    let ghost o = out@;
    let mut i: usize = 0;
    assert(ls@.take(0) =~= Seq::<ModelLine>::empty());
    assert(out@ =~= o + model_rows(ls@.take(0)));
    while i < ls.len()
        invariant
            0 <= i <= ls.len(),
            out@ == o + model_rows(ls@.take(i as int)),
        decreases ls.len() - i,
    {
        put_chars(out, &model_row_of(&ls[i]));
        assert(ls@.take(i + 1).drop_last() =~= ls@.take(i as int));
        assert(out@ =~= o + model_rows(ls@.take(i + 1)));
        i = i + 1;
    }
    assert(ls@.take(i as int) =~= ls@);
}

/// Appends the labels of the columns, as `header_labels`.
fn put_header_labels(out: &mut Vec<char>, keys: &Vec<String>)
    ensures
        final(out)@ == old(out)@ + header_labels(texts(keys@)),
{
    let ghost o = out@;
    let ghost ks = texts(keys@);
    let mut i: usize = 0;
    assert(ks.take(0) =~= Seq::<Seq<char>>::empty());
    assert(out@ =~= o + header_labels(ks.take(0)));
    while i < keys.len()
        invariant
            0 <= i <= keys.len(),
            ks == texts(keys@),
            out@ == o + header_labels(ks.take(i as int)),
        decreases keys.len() - i,
    {
        put(out, TH_OPEN);
        put_chars(out, &label_of(keys[i].as_str()));
        put(out, TH_CLOSE);
        assert(ks.take(i + 1).drop_last() =~= ks.take(i as int));
        assert(ks.take(i + 1).last() == keys@[i as int]@);
        assert(out@ =~= o + header_labels(ks.take(i + 1)));
        i = i + 1;
    }
    assert(ks.take(i as int) =~= ks);
}

/// Appends the badge naming the provider's key, as `key_required`.
fn put_key_required(out: &mut Vec<char>, pc: Option<&ProviderConfig>)
    ensures
        final(out)@ == old(out)@ + key_required(
            match pc {
                Some(p) => Some(*p),
                None => None,
            },
        ),
{
    match pc {
        Some(p) => match &p.api_key_env {
            Some(k) => {
                let ghost o = out@;
                put(out, KEY_REQUIRED_0);
                put(out, k.as_str());
                put(out, KEY_REQUIRED_1);
                assert(out@ =~= o + (KEY_REQUIRED_0@ + k@ + KEY_REQUIRED_1@));
            },
            None => {
                assert(out@ =~= old(out)@ + Seq::<char>::empty());
            },
        },
        None => {
            assert(out@ =~= old(out)@ + Seq::<char>::empty());
        },
    }
}

/// Appends the box with the catalogue's address, as `api_url_box`.
fn put_api_url_box(out: &mut Vec<char>, pc: Option<&ProviderConfig>)
    ensures
        final(out)@ == old(out)@ + api_url_box(
            match pc {
                Some(p) => Some(*p),
                None => None,
            },
        ),
{
    let a: Vec<char> = match pc {
        Some(p) => api_address_of(p),
        None => Vec::new(),
    };
    if a.len() > 0 {
        proof {
            reveal_strlit("\"");
        }
        let e = replace_chars(&a, &chars_of(QUOTE), &chars_of(QUOTE_ENTITY));
        let ghost o = out@;
        put(out, API_URL_0);
        put_chars(out, &e);
        put(out, API_URL_1);
        put_chars(out, &e);
        put(out, API_URL_2);
        put_chars(out, &e);
        put(out, API_URL_3);
        assert(out@ =~= o + (API_URL_0@ + e@ + API_URL_1@ + e@ + API_URL_2@ + e@ + API_URL_3@));
    } else {
        assert(out@ =~= old(out)@ + Seq::<char>::empty());
    }
}

/// The page of the models of the provider named `name`, as
/// `models_page_text`, given all the stored statuses and the lines of its
/// models (see `model_lines`).
pub fn models_page(
    name: &str,
    statuses: &Vec<ProviderStatus>,
    cfg: &Config,
    lines: Vec<ModelLine>,
) -> (html: String)
    ensures
        html@ == models_page_text(name@, statuses@, cfg.providers@, lines@),
{
    let ghost ls = lines@;
    let st: Option<&ProviderStatus> = match find_status(statuses, name) {
        Some(i) => Some(&statuses[i]),
        None => None,
    };
    let ghost stv = page_status(statuses@, name@);
    assert(stv == match st {
        Some(s) => Some(*s),
        None => None::<ProviderStatus>,
    });
    let pc: Option<&ProviderConfig> = match find_config(cfg, name) {
        Some(i) => Some(&cfg.providers[i]),
        None => None,
    };
    let ghost pcv = page_config(cfg.providers@, name@);
    assert(pcv == match pc {
        Some(p) => Some(*p),
        None => None::<ProviderConfig>,
    });
    let keys = column_list_of(&lines);
    let free_count = count_free(&lines);
    let count = lines.len();
    let ordered = order_free_first(lines);
    let healthy = match st {
        Some(s) => s.is_healthy,
        None => false,
    };
    let mut out: Vec<char> = Vec::new();
    put(&mut out, MODELS_PAGE_0);
    assert(out@ =~= MODELS_PAGE_0@);
    put(&mut out, name);
    put(&mut out, MODELS_PAGE_1);
    put(&mut out, name);
    put(&mut out, MODELS_PAGE_2);
    if healthy {
        put(&mut out, HEALTHY);
    } else {
        put(&mut out, DOWN);
    }
    put(&mut out, MODELS_PAGE_3);
    put_chars(&mut out, &u64_text(count as u64));
    put(&mut out, MODELS_PAGE_4);
    match st {
        Some(s) => {
            let ms: u64 = match s.response_time_ms {
                Some(n) => n,
                None => 0,
            };
            let mut t = u64_text(ms);
            push_str(&mut t, MS);
            put_chars(&mut out, &t);
        },
        None => put(&mut out, EM_DASH),
    }
    put(&mut out, MODELS_PAGE_5);
    let link: &str = match pc {
        Some(p) => p.base_url.as_str(),
        None => HASH,
    };
    assert(link@ == provider_link(pcv));
    put(&mut out, link);
    put(&mut out, MODELS_PAGE_6);
    put(&mut out, link);
    put(&mut out, MODELS_PAGE_7);
    put_key_required(&mut out, pc);
    put(&mut out, MODELS_PAGE_8);
    put_api_url_box(&mut out, pc);
    put(&mut out, MODELS_PAGE_9);
    put_chars(&mut out, &u64_text(count as u64));
    put(&mut out, MODELS_PAGE_10);
    put_chars(&mut out, &u64_text(free_count as u64));
    put(&mut out, MODELS_PAGE_11);
    put(&mut out, MODEL_ID_HEADER);
    put_header_labels(&mut out, &keys);
    put(&mut out, MODELS_PAGE_12);
    put_model_rows(&mut out, &ordered);
    put(&mut out, MODELS_PAGE_13);
    assert(out@ == models_page_text(name@, statuses@, cfg.providers@, ls));
    string_of(&out)
}

} // verus!
