//! Transaction templates of the ledger: which accounts a posting debits and
//! credits, on which layer, by how much.
//!
//! A template names its amounts and most of its accounts by parameter; the
//! ledger fills them in when a transaction is posted from the template. The
//! texts that the ledger reads (`params.amount`, `uuid('...')`, ...) are
//! rendered here from the template's structure.
use vstd::prelude::*;

use super::constants::{
    EFFECTIVE_AT_REST_ID, EFFECTIVE_INCOMING_ID, EFFECTIVE_OUTGOING_ID, ONCHAIN_FEE_ID, ONCHAIN_UTXO_AT_REST_ID,
    ONCHAIN_UTXO_INCOMING_ID, ONCHAIN_UTXO_OUTGOING_ID,
};
use super::error::{CreateError, LedgerError};

use crate::uuid_text::{uuid_hyphenated, uuid_to_string};

verus! {

#[derive(Clone, Copy, Debug, PartialEq, Eq, Structural)]
pub enum Direction {
    Debit,
    Credit,
}

#[derive(Clone, Copy, Debug, PartialEq, Eq, Structural, Hash)]
pub enum Layer {
    Settled,
    Pending,
    Encumbered,
}

/// The amount of an entry, over the template's amount parameters.
#[derive(Clone, Copy, Debug)]
pub enum Units {
    /// `params.a`
    Param(&'static str),
    /// `params.a - params.b`
    Minus(&'static str, &'static str),
    /// `params.a - params.b - params.c`
    MinusTwo(&'static str, &'static str, &'static str),
    /// `params.a + params.b`
    Plus(&'static str, &'static str),
    /// `params.flag ? params.a : 0`
    IfElseZero(&'static str, &'static str),
}

/// The account of an entry.
#[derive(Clone, Copy, Debug)]
pub enum AccountRef {
    /// An omnibus account, by id.
    Fixed(u128),
    /// `params.a`
    Param(&'static str),
    /// `params.flag ? uuid('fixed') : params.a`
    FixedIf(&'static str, u128, &'static str),
    /// `params.flag ? params.a : uuid('fixed')`
    ParamIf(&'static str, &'static str, u128),
}

/// One entry of a template. Every entry is in BTC.
#[derive(Clone, Copy, Debug)]
pub struct EntryDef {
    pub entry_type: &'static str,
    pub account: AccountRef,
    pub direction: Direction,
    pub layer: Layer,
    pub units: Units,
}

#[derive(Clone, Copy, Debug, PartialEq, Eq, Structural)]
pub enum ParamType {
    Uuid,
    Decimal,
    Boolean,
    Json,
    Date,
}

/// A parameter a template takes, with the expression that gives it a value
/// when the posting leaves it out.
#[derive(Clone, Copy, Debug)]
pub struct ParamDef {
    pub name: &'static str,
    pub param_type: ParamType,
    pub default_expr: Option<&'static str>,
}

/// A transaction template. Its journal, effective date and metadata always
/// come from the parameters `journal_id`, `effective` and `meta`; its
/// correlation id from `correlation_id` where `with_correlation_id` holds.
#[derive(Clone, Debug)]
pub struct TxTemplateDef {
    pub id: u128,
    pub code: &'static str,
    pub description: &'static str,
    pub with_correlation_id: bool,
    pub entries: Vec<EntryDef>,
    pub params: Vec<ParamDef>,
}

/// The date a posting takes effect: the day a confirmation time falls on, or
/// the day it is posted when there is none.
#[derive(Clone, Copy, Debug, PartialEq, Eq, Structural)]
pub enum EffectiveDate {
    /// Days since 1970-01-01.
    Day(u64),
    Today,
}

pub const SECONDS_PER_DAY: u64 = 86400;

/// The day a unix time falls on, in days since 1970-01-01.
pub open spec fn day_of(timestamp: u64) -> u64 {
    timestamp / SECONDS_PER_DAY
}

/// The effective date of a posting for an optional confirmation time.
pub fn effective_date(confirmation_timestamp: Option<u64>) -> (d: EffectiveDate)
    ensures
        d == match confirmation_timestamp {
            Some(t) => EffectiveDate::Day(day_of(t)),
            None => EffectiveDate::Today,
        },
{
    match confirmation_timestamp {
        Some(t) => EffectiveDate::Day(t / SECONDS_PER_DAY),
        None => EffectiveDate::Today,
    }
}

/// The parameter values of a posting, in the order the posting sets them.
/// Amounts are in satoshis; metadata is the posting's own, passed as it is.
#[derive(Clone, Debug)]
pub struct TxParamValues {
    pub ids: Vec<(&'static str, u128)>,
    pub amounts: Vec<(&'static str, i128)>,
    pub flags: Vec<(&'static str, bool)>,
    pub effective: EffectiveDate,
}

/// The values a posting gives to a template's parameters.
pub struct ParamValues {
    pub amount: spec_fn(Seq<char>) -> int,
    pub flag: spec_fn(Seq<char>) -> bool,
    pub id: spec_fn(Seq<char>) -> u128,
}

/// The value a list gives to a name: that of its first pair with the name,
/// zero when there is none.
pub open spec fn lookup_id(s: Seq<(&'static str, u128)>, n: Seq<char>) -> u128
    decreases s.len(),
{
    if s.len() == 0 {
        0
    } else if s[0].0@ == n {
        s[0].1
    } else {
        lookup_id(s.drop_first(), n)
    }
}

pub open spec fn lookup_amount(s: Seq<(&'static str, i128)>, n: Seq<char>) -> int
    decreases s.len(),
{
    if s.len() == 0 {
        0
    } else if s[0].0@ == n {
        s[0].1 as int
    } else {
        lookup_amount(s.drop_first(), n)
    }
}

pub open spec fn lookup_flag(s: Seq<(&'static str, bool)>, n: Seq<char>) -> bool
    decreases s.len(),
{
    if s.len() == 0 {
        false
    } else if s[0].0@ == n {
        s[0].1
    } else {
        lookup_flag(s.drop_first(), n)
    }
}

/// A name first given at position `k` takes the value given there.
pub proof fn lemma_lookup_id_at(s: Seq<(&'static str, u128)>, k: int, n: Seq<char>)
    requires
        0 <= k < s.len(),
        s[k].0@ == n,
        forall|j: int| 0 <= j < k ==> (#[trigger] s[j]).0@ != n,
    ensures
        lookup_id(s, n) == s[k].1,
    decreases k,
{
    if k > 0 {
        let t = s.drop_first();
        assert forall|j: int| 0 <= j < k - 1 implies (#[trigger] t[j]).0@ != n by {
            assert(t[j] == s[j + 1]);
        }
        assert(t[k - 1] == s[k]);
        lemma_lookup_id_at(t, k - 1, n);
    }
}

/// A name first given at position `k` takes the amount given there.
pub proof fn lemma_lookup_amount_at(s: Seq<(&'static str, i128)>, k: int, n: Seq<char>)
    requires
        0 <= k < s.len(),
        s[k].0@ == n,
        forall|j: int| 0 <= j < k ==> (#[trigger] s[j]).0@ != n,
    ensures
        lookup_amount(s, n) == s[k].1 as int,
    decreases k,
{
    if k > 0 {
        let t = s.drop_first();
        assert forall|j: int| 0 <= j < k - 1 implies (#[trigger] t[j]).0@ != n by {
            assert(t[j] == s[j + 1]);
        }
        assert(t[k - 1] == s[k]);
        lemma_lookup_amount_at(t, k - 1, n);
    }
}

/// The values that lists of named values give a template's parameters.
pub open spec fn param_values_of(
    ids: Seq<(&'static str, u128)>,
    amounts: Seq<(&'static str, i128)>,
    flags: Seq<(&'static str, bool)>,
) -> ParamValues {
    ParamValues {
        amount: |n: Seq<char>| lookup_amount(amounts, n),
        flag: |n: Seq<char>| lookup_flag(flags, n),
        id: |n: Seq<char>| lookup_id(ids, n),
    }
}

pub open spec fn units_value(u: Units, p: ParamValues) -> int {
    match u {
        Units::Param(a) => (p.amount)(a@),
        Units::Minus(a, b) => (p.amount)(a@) - (p.amount)(b@),
        Units::MinusTwo(a, b, c) => (p.amount)(a@) - (p.amount)(b@) - (p.amount)(c@),
        Units::Plus(a, b) => (p.amount)(a@) + (p.amount)(b@),
        Units::IfElseZero(f, a) => if (p.flag)(f@) { (p.amount)(a@) } else { 0 },
    }
}

pub open spec fn account_value(a: AccountRef, p: ParamValues) -> u128 {
    match a {
        AccountRef::Fixed(id) => id,
        AccountRef::Param(n) => (p.id)(n@),
        AccountRef::FixedIf(f, id, n) => if (p.flag)(f@) { id } else { (p.id)(n@) },
        AccountRef::ParamIf(f, n, id) => if (p.flag)(f@) { (p.id)(n@) } else { id },
    }
}

/// One of the ledger's omnibus accounts, which every wallet's postings share.
pub open spec fn is_omnibus(id: u128) -> bool {
    ||| id == ONCHAIN_UTXO_INCOMING_ID
    ||| id == ONCHAIN_UTXO_AT_REST_ID
    ||| id == ONCHAIN_UTXO_OUTGOING_ID
    ||| id == ONCHAIN_FEE_ID
    ||| id == EFFECTIVE_INCOMING_ID
    ||| id == EFFECTIVE_AT_REST_ID
    ||| id == EFFECTIVE_OUTGOING_ID
}

/// The accounts a posting names by these parameters are its wallet's own:
/// none is an omnibus account, and no two of them are the same.
pub open spec fn own_accounts(p: ParamValues, names: Set<Seq<char>>) -> bool {
    &&& forall|a: Seq<char>| names.contains(a) ==> !is_omnibus(#[trigger] (p.id)(a))
    &&& forall|a: Seq<char>, b: Seq<char>|
        names.contains(a) && names.contains(b) && a != b ==> #[trigger] (p.id)(a) != #[trigger] (p.id)(b)
}

/// Debits count up, credits down.
pub open spec fn signed(d: Direction, x: int) -> int {
    match d {
        Direction::Debit => x,
        Direction::Credit => -x,
    }
}

/// What the entries put on a layer, debits less credits.
pub open spec fn layer_net(es: Seq<EntryDef>, layer: Layer, p: ParamValues) -> int
    decreases es.len(),
{
    if es.len() == 0 {
        0
    } else {
        let e = es.last();
        layer_net(es.drop_last(), layer, p) + if e.layer == layer {
            signed(e.direction, units_value(e.units, p))
        } else {
            0
        }
    }
}

/// What the entries put on one account's layer, debits less credits.
pub open spec fn account_net(es: Seq<EntryDef>, account: u128, layer: Layer, p: ParamValues) -> int
    decreases es.len(),
{
    if es.len() == 0 {
        0
    } else {
        let e = es.last();
        account_net(es.drop_last(), account, layer, p) + if e.layer == layer && account_value(
            e.account,
            p,
        ) == account {
            signed(e.direction, units_value(e.units, p))
        } else {
            0
        }
    }
}

/// Entries come in twos: a debit and a credit of the same amount on the same layer.
pub open spec fn paired(es: Seq<EntryDef>) -> bool {
    &&& es.len() % 2 == 0
    &&& forall|k: int|
        0 <= k < es.len() / 2 ==> {
            let a = #[trigger] es[2 * k];
            let b = es[2 * k + 1];
            &&& a.layer == b.layer
            &&& a.units == b.units
            &&& a.direction != b.direction
        }
}

/// Whatever the parameters, every layer's debits equal its credits.
pub open spec fn balanced(es: Seq<EntryDef>) -> bool {
    forall|layer: Layer, p: ParamValues| #[trigger] layer_net(es, layer, p) == 0
}

pub open spec fn flipped(d: Direction) -> Direction {
    match d {
        Direction::Debit => Direction::Credit,
        Direction::Credit => Direction::Debit,
    }
}

/// `b` is `a` with every entry's direction turned round.
pub open spec fn reverses(a: Seq<EntryDef>, b: Seq<EntryDef>) -> bool {
    &&& a.len() == b.len()
    &&& forall|i: int|
        0 <= i < a.len() ==> {
            let x = #[trigger] a[i];
            let y = b[i];
            &&& y.account == x.account
            &&& y.layer == x.layer
            &&& y.units == x.units
            &&& y.direction == flipped(x.direction)
        }
}

proof fn lemma_paired_prefix_net(es: Seq<EntryDef>, n: int, layer: Layer, p: ParamValues)
    requires
        paired(es),
        0 <= n <= es.len() / 2,
    ensures
        layer_net(es.take(2 * n), layer, p) == 0,
    decreases n,
{
    if n == 0 {
        assert(es.take(0) =~= Seq::<EntryDef>::empty());
    } else {
        lemma_paired_prefix_net(es, n - 1, layer, p);
        let k = n - 1;
        let a = es[2 * k];
        let b = es[2 * k + 1];
        assert(es.take(2 * n).drop_last() =~= es.take(2 * n - 1));
        assert(es.take(2 * n - 1).drop_last() =~= es.take(2 * k));
        assert(es.take(2 * n).last() == b);
        assert(es.take(2 * n - 1).last() == a);
        assert(a.layer == b.layer && a.units == b.units && a.direction != b.direction);
        assert(layer_net(es.take(2 * n - 1), layer, p) == layer_net(es.take(2 * k), layer, p) + if a.layer == layer {
            signed(a.direction, units_value(a.units, p))
        } else {
            0
        });
        assert(layer_net(es.take(2 * n), layer, p) == layer_net(es.take(2 * n - 1), layer, p) + if b.layer == layer {
            signed(b.direction, units_value(b.units, p))
        } else {
            0
        });
    }
}

/// Paired entries balance on every layer, whatever the parameters.
pub proof fn lemma_paired_balanced(es: Seq<EntryDef>)
    requires
        paired(es),
    ensures
        balanced(es),
{
    assert forall|layer: Layer, p: ParamValues| #[trigger] layer_net(es, layer, p) == 0 by {
        lemma_paired_prefix_net(es, (es.len() / 2) as int, layer, p);
        assert(es.take(es.len() as int) =~= es);
    }
}

/// Turning every entry round negates what each account's layer receives.
pub proof fn lemma_reverses_negates(a: Seq<EntryDef>, b: Seq<EntryDef>, account: u128, layer: Layer, p: ParamValues)
    requires
        reverses(a, b),
    ensures
        account_net(b, account, layer, p) == -account_net(a, account, layer, p),
    decreases a.len(),
{
    if a.len() > 0 {
        let n = a.len() - 1;
        assert(a[n] == a.last());
        assert(reverses(a.drop_last(), b.drop_last())) by {
            assert forall|i: int| 0 <= i < a.drop_last().len() implies {
                let x = #[trigger] a.drop_last()[i];
                let y = b.drop_last()[i];
                &&& y.account == x.account
                &&& y.layer == x.layer
                &&& y.units == x.units
                &&& y.direction == flipped(x.direction)
            } by {
                assert(a.drop_last()[i] == a[i]);
                assert(b.drop_last()[i] == b[i]);
            }
        }
        lemma_reverses_negates(a.drop_last(), b.drop_last(), account, layer, p);
    }
}

pub open spec fn direction_text(d: Direction) -> Seq<char> {
    match d {
        Direction::Debit => "DEBIT"@,
        Direction::Credit => "CREDIT"@,
    }
}

pub open spec fn layer_text(l: Layer) -> Seq<char> {
    match l {
        Layer::Settled => "SETTLED"@,
        Layer::Pending => "PENDING"@,
        Layer::Encumbered => "ENCUMBERED"@,
    }
}

pub open spec fn param_text(name: Seq<char>) -> Seq<char> {
    "params."@ + name
}

pub open spec fn units_text(u: Units) -> Seq<char> {
    match u {
        Units::Param(a) => param_text(a@),
        Units::Minus(a, b) => param_text(a@) + " - "@ + param_text(b@),
        Units::MinusTwo(a, b, c) => param_text(a@) + " - "@ + param_text(b@) + " - "@ + param_text(c@),
        Units::Plus(a, b) => param_text(a@) + " + "@ + param_text(b@),
        Units::IfElseZero(f, a) => param_text(f@) + " ? "@ + param_text(a@) + " : 0"@,
    }
}

pub open spec fn uuid_expr_text(id: u128) -> Seq<char> {
    "uuid('"@ + uuid_hyphenated(id) + "')"@
}

pub open spec fn account_text(a: AccountRef) -> Seq<char> {
    match a {
        AccountRef::Fixed(id) => uuid_expr_text(id),
        AccountRef::Param(n) => param_text(n@),
        AccountRef::FixedIf(f, id, n) => param_text(f@) + " ? "@ + uuid_expr_text(id) + " : "@ + param_text(n@),
        AccountRef::ParamIf(f, n, id) => param_text(f@) + " ? "@ + param_text(n@) + " : "@ + uuid_expr_text(id),
    }
}

/// Quoted, as the ledger reads a string literal.
pub open spec fn quoted(s: Seq<char>) -> Seq<char> {
    "'"@ + s + "'"@
}

fn param_string(name: &str) -> (s: String)
    ensures
        s@ == param_text(name@),
{
    let mut s = String::new();
    s.append("params.");
    s.append(name);
    s
}

fn uuid_expr_string(id: u128) -> (s: String)
    ensures
        s@ == uuid_expr_text(id),
{
    let mut s = String::new();
    s.append("uuid('");
    let text = uuid_to_string(id);
    s.append(text.as_str());
    s.append("')");
    s
}

impl Direction {
    /// The text the ledger reads for the direction.
    pub fn text(&self) -> (t: &'static str)
        ensures
            t@ == direction_text(*self),
    {
        match self {
            Direction::Debit => "DEBIT",
            Direction::Credit => "CREDIT",
        }
    }
}

impl Layer {
    /// The text the ledger reads for the layer.
    pub fn text(&self) -> (t: &'static str)
        ensures
            t@ == layer_text(*self),
    {
        match self {
            Layer::Settled => "SETTLED",
            Layer::Pending => "PENDING",
            Layer::Encumbered => "ENCUMBERED",
        }
    }
}

impl Units {
    /// The expression the ledger evaluates for the amount.
    pub fn expression(&self) -> (t: String)
        ensures
            t@ == units_text(*self),
    {
        match *self {
            Units::Param(a) => param_string(a),
            Units::Minus(a, b) => {
                let mut t = param_string(a);
                t.append(" - ");
                t.append(param_string(b).as_str());
                t
            },
            Units::MinusTwo(a, b, c) => {
                let mut t = param_string(a);
                t.append(" - ");
                t.append(param_string(b).as_str());
                t.append(" - ");
                t.append(param_string(c).as_str());
                t
            },
            Units::Plus(a, b) => {
                let mut t = param_string(a);
                t.append(" + ");
                t.append(param_string(b).as_str());
                t
            },
            Units::IfElseZero(f, a) => {
                let mut t = param_string(f);
                t.append(" ? ");
                t.append(param_string(a).as_str());
                t.append(" : 0");
                t
            },
        }
    }
}

impl AccountRef {
    /// The expression the ledger evaluates for the account id.
    pub fn expression(&self) -> (t: String)
        ensures
            t@ == account_text(*self),
    {
        match *self {
            AccountRef::Fixed(id) => uuid_expr_string(id),
            AccountRef::Param(n) => param_string(n),
            AccountRef::FixedIf(f, id, n) => {
                let mut t = param_string(f);
                t.append(" ? ");
                t.append(uuid_expr_string(id).as_str());
                t.append(" : ");
                t.append(param_string(n).as_str());
                t
            },
            AccountRef::ParamIf(f, n, id) => {
                let mut t = param_string(f);
                t.append(" ? ");
                t.append(param_string(n).as_str());
                t.append(" : ");
                t.append(uuid_expr_string(id).as_str());
                t
            },
        }
    }
}

/// A text as a string literal of the ledger's expression language.
pub fn quote(s: &str) -> (t: String)
    ensures
        t@ == quoted(s@),
{
    let mut t = String::new();
    t.append("'");
    t.append(s);
    t.append("'");
    t
}


/// What creating a template came to: a template that exists already is no
/// error.
pub fn template_created(result: Result<(), CreateError>) -> (r: Result<(), LedgerError>)
    ensures
        r == match result {
            Ok(()) => Ok(()),
            Err(CreateError::DuplicateKey) => Ok(()),
            Err(CreateError::Other) => Err(LedgerError::SqlxLedger),
        },
{
    match result {
        Ok(()) => Ok(()),
        Err(CreateError::DuplicateKey) => Ok(()),
        Err(CreateError::Other) => Err(LedgerError::SqlxLedger),
    }
}

} // verus!
