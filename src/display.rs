//! Goals and program clauses of the solver, and their textual form, which
//! reads back in the surface syntax of goals.
use itertools::Itertools;
use vstd::prelude::*;

verus! {

/// A type: a named type (a scalar, a type constructor without arguments, or
/// a variable bound by a quantifier), a reference, or an associated type.
pub enum Ty {
    Named(String),
    /// `&'a T`: the lifetime's name and the referenced type.
    Ref(String, Box<Ty>),
    Alias(Box<AliasTy>),
}

/// `<T as Trait>::Assoc`.
pub struct AliasTy {
    pub self_ty: Ty,
    pub trait_name: String,
    pub assoc_name: String,
}

/// A parameter of a goal: a type or a lifetime (named with its quote).
pub enum GenericArg {
    Ty(Ty),
    Lifetime(String),
}

/// `T: Trait`.
pub struct TraitRef {
    pub self_ty: Ty,
    pub trait_name: String,
}

pub enum WhereClause {
    Implemented(TraitRef),
    /// `T: Trait<Assoc = U>`.
    AliasEq(AliasTy, Ty),
    /// `'a: 'b`.
    LifetimeOutlives(String, String),
    /// `T: 'a`.
    TypeOutlives(Ty, String),
}

pub enum WellFormed {
    Ty(Ty),
    Trait(TraitRef),
}

pub enum FromEnv {
    Ty(Ty),
    Trait(TraitRef),
}

/// `<T as Trait>::Assoc -> U`.
pub struct Normalize {
    pub alias: AliasTy,
    pub ty: Ty,
}

pub enum DomainGoal {
    Holds(WhereClause),
    WellFormed(WellFormed),
    FromEnv(FromEnv),
    IsUpstream(Ty),
    IsLocal(Ty),
    IsFullyVisible(Ty),
    DownstreamType(Ty),
    Compatible,
    Reveal,
    Normalize(Normalize),
    /// The trait's name.
    ObjectSafe(String),
    LocalImplAllowed(TraitRef),
}

pub enum QuantifierKind {
    ForAll,
    Exists,
}

pub enum Goal {
    Not(Box<Goal>),
    All(Vec<Goal>),
    /// The quantifier, the names of the variables it binds, and the body.
    Quantified(QuantifierKind, Vec<String>, Box<Goal>),
    /// The hypotheses, and the goal proved under them.
    Implies(Vec<ProgramClause>, Box<Goal>),
    EqGoal(GenericArg, GenericArg),
    DomainGoal(DomainGoal),
    CannotProve,
}

/// `forall<binders> { consequence :- conditions }`.
pub struct ProgramClause {
    pub binders: Vec<String>,
    pub consequence: DomainGoal,
    pub conditions: Vec<Goal>,
}

/// The parts, with `sep` between each two neighbours.
pub open spec fn joined(parts: Seq<Seq<char>>, sep: Seq<char>) -> Seq<char>
    decreases parts.len(),
{
    if parts.len() == 0 {
        Seq::empty()
    } else if parts.len() == 1 {
        parts[0]
    } else {
        joined(parts.drop_last(), sep) + sep + parts.last()
    }
}

/// Relies on itertools' `Itertools::join`: each item's `Display` text (for a
/// `String`, the string itself) with `sep` between each two neighbours.
#[verifier::external_body]
fn join(parts: &Vec<String>, sep: &str) -> (r: String)
    ensures
        r@ == joined(names(parts@), sep@),
{
    parts.iter().join(sep)
}

pub open spec fn names(v: Seq<String>) -> Seq<Seq<char>> {
    v.map_values(|s: String| s@)
}

/// Bound variables: nothing when there are none, else `<a, b>`.
pub open spec fn binders_text(bs: Seq<Seq<char>>) -> Seq<char> {
    if bs.len() == 0 {
        Seq::empty()
    } else {
        "<"@ + joined(bs, ", "@) + ">"@
    }
}

pub open spec fn ty_text(t: Ty) -> Seq<char>
    decreases t,
{
    match t {
        Ty::Named(n) => n@,
        Ty::Ref(l, inner) => "&"@ + l@ + " "@ + ty_text(*inner),
        Ty::Alias(a) => "<"@ + ty_text(a.self_ty) + " as "@ + a.trait_name@ + ">::"@
            + a.assoc_name@,
    }
}

pub open spec fn alias_text(a: AliasTy) -> Seq<char> {
    "<"@ + ty_text(a.self_ty) + " as "@ + a.trait_name@ + ">::"@ + a.assoc_name@
}

pub open spec fn arg_text(a: GenericArg) -> Seq<char> {
    match a {
        GenericArg::Ty(t) => ty_text(t),
        GenericArg::Lifetime(l) => l@,
    }
}

pub open spec fn trait_ref_text(t: TraitRef) -> Seq<char> {
    ty_text(t.self_ty) + ": "@ + t.trait_name@
}

pub open spec fn where_clause_text(w: WhereClause) -> Seq<char> {
    match w {
        WhereClause::Implemented(t) => trait_ref_text(t),
        WhereClause::AliasEq(a, t) => ty_text(a.self_ty) + ": "@ + a.trait_name@ + "<"@
            + a.assoc_name@ + " = "@ + ty_text(t) + ">"@,
        WhereClause::LifetimeOutlives(a, b) => a@ + ": "@ + b@,
        WhereClause::TypeOutlives(t, l) => ty_text(t) + ": "@ + l@,
    }
}

pub open spec fn normalize_text(n: Normalize) -> Seq<char> {
    alias_text(n.alias) + " -> "@ + ty_text(n.ty)
}

pub open spec fn domain_goal_text(d: DomainGoal) -> Seq<char> {
    match d {
        DomainGoal::Holds(w) => where_clause_text(w),
        DomainGoal::WellFormed(WellFormed::Ty(t)) => "WellFormed("@ + ty_text(t) + ")"@,
        DomainGoal::WellFormed(WellFormed::Trait(t)) => "WellFormed("@ + trait_ref_text(t) + ")"@,
        DomainGoal::FromEnv(FromEnv::Ty(t)) => "FromEnv("@ + ty_text(t) + ")"@,
        DomainGoal::FromEnv(FromEnv::Trait(t)) => "FromEnv("@ + trait_ref_text(t) + ")"@,
        DomainGoal::IsUpstream(t) => "IsUpstream("@ + ty_text(t) + ")"@,
        DomainGoal::IsLocal(t) => "IsLocal("@ + ty_text(t) + ")"@,
        DomainGoal::IsFullyVisible(t) => "IsFullyVisible("@ + ty_text(t) + ")"@,
        DomainGoal::DownstreamType(t) => "DownstreamType("@ + ty_text(t) + ")"@,
        DomainGoal::Compatible => "Compatible"@,
        DomainGoal::Reveal => "Reveal"@,
        DomainGoal::Normalize(n) => "Normalize("@ + normalize_text(n) + ")"@,
        DomainGoal::ObjectSafe(id) => "ObjectSafe("@ + id@ + ")"@,
        DomainGoal::LocalImplAllowed(t) => "LocalImplAllowed("@ + trait_ref_text(t) + ")"@,
    }
}

pub open spec fn quantifier_text(k: QuantifierKind) -> Seq<char> {
    match k {
        QuantifierKind::ForAll => "forall"@,
        QuantifierKind::Exists => "exists"@,
    }
}

pub open spec fn goal_text(g: Goal) -> Seq<char>
    decreases g,
{
    match g {
        Goal::Not(inner) => "not { "@ + goal_text(*inner) + " }"@,
        Goal::All(gs) => joined(goals_texts(gs@), ", "@),
        Goal::Quantified(k, bs, body) => quantifier_text(k) + binders_text(names(bs@)) + " { "@
            + goal_text(*body) + " }"@,
        Goal::Implies(cs, body) => "if ("@ + joined(clauses_texts(cs@), "; "@) + ") "@ + "{ "@
            + goal_text(*body) + " }"@,
        Goal::EqGoal(a, b) => arg_text(a) + " = "@ + arg_text(b),
        Goal::DomainGoal(d) => domain_goal_text(d),
        Goal::CannotProve => "{cannot prove}"@,
    }
}

/// The text of each goal, in order.
pub open spec fn goals_texts(gs: Seq<Goal>) -> Seq<Seq<char>>
    decreases gs,
{
    if gs.len() == 0 {
        Seq::empty()
    } else {
        goals_texts(gs.drop_last()).push(goal_text(gs.last()))
    }
}

/// `forall<binders> { body }`, or the body alone when nothing is bound,
/// where the body is `consequence`, or `consequence :- c1,c2` when the
/// clause has conditions.
pub open spec fn clause_text(c: ProgramClause) -> Seq<char>
    decreases c,
{
    let body = if c.conditions.len() == 0 {
        domain_goal_text(c.consequence)
    } else {
        domain_goal_text(c.consequence) + " :- "@ + joined(goals_texts(c.conditions@), ","@)
    };
    if c.binders.len() == 0 {
        body
    } else {
        "forall"@ + binders_text(names(c.binders@)) + " { "@ + body + " }"@
    }
}

/// The text of each clause, in order.
pub open spec fn clauses_texts(cs: Seq<ProgramClause>) -> Seq<Seq<char>>
    decreases cs,
{
    if cs.len() == 0 {
        Seq::empty()
    } else {
        clauses_texts(cs.drop_last()).push(clause_text(cs.last()))
    }
}

/// `head`, the inner text, then a closing parenthesis.
fn call_form(head: &str, inner: String) -> (r: String)
    ensures
        r@ == head@ + inner@ + ")"@,
{
    let mut r = String::from_str(head);
    r.append(inner.as_str());
    r.append(")");
    r
}

/// The text of a list of bound variables.
pub fn render_binders(bs: &Vec<String>) -> (r: String)
    ensures
        r@ == binders_text(names(bs@)),
{
    if bs.len() == 0 {
        String::new()
    } else {
        let mut r = String::from_str("<");
        let inner = join(bs, ", ");
        r.append(inner.as_str());
        r.append(">");
        r
    }
}

impl Ty {
    pub fn render(&self) -> (r: String)
        ensures
            r@ == ty_text(*self),
        decreases self,
    {
        match self {
            Ty::Named(n) => n.clone(),
            Ty::Ref(l, inner) => {
                let mut r = String::from_str("&");
                r.append(l.as_str());
                r.append(" ");
                let t = inner.render();
                r.append(t.as_str());
                r
            },
            Ty::Alias(a) => {
                let mut r = String::from_str("<");
                let t = a.self_ty.render();
                r.append(t.as_str());
                r.append(" as ");
                r.append(a.trait_name.as_str());
                r.append(">::");
                r.append(a.assoc_name.as_str());
                r
            },
        }
    }
}

impl AliasTy {
    pub fn render(&self) -> (r: String)
        ensures
            r@ == alias_text(*self),
    {
        let mut r = String::from_str("<");
        let t = self.self_ty.render();
        r.append(t.as_str());
        r.append(" as ");
        r.append(self.trait_name.as_str());
        r.append(">::");
        r.append(self.assoc_name.as_str());
        r
    }
}

impl GenericArg {
    pub fn render(&self) -> (r: String)
        ensures
            r@ == arg_text(*self),
    {
        match self {
            GenericArg::Ty(t) => t.render(),
            GenericArg::Lifetime(l) => l.clone(),
        }
    }
}

impl TraitRef {
    pub fn render(&self) -> (r: String)
        ensures
            r@ == trait_ref_text(*self),
    {
        let mut r = self.self_ty.render();
        r.append(": ");
        r.append(self.trait_name.as_str());
        r
    }
}

impl WhereClause {
    pub fn render(&self) -> (r: String)
        ensures
            r@ == where_clause_text(*self),
    {
        match self {
            WhereClause::Implemented(t) => t.render(),
            WhereClause::AliasEq(a, t) => {
                let mut r = a.self_ty.render();
                r.append(": ");
                r.append(a.trait_name.as_str());
                r.append("<");
                r.append(a.assoc_name.as_str());
                r.append(" = ");
                let v = t.render();
                r.append(v.as_str());
                r.append(">");
                r
            },
            WhereClause::LifetimeOutlives(a, b) => {
                let mut r = a.clone();
                r.append(": ");
                r.append(b.as_str());
                r
            },
            WhereClause::TypeOutlives(t, l) => {
                let mut r = t.render();
                r.append(": ");
                r.append(l.as_str());
                r
            },
        }
    }
}

impl Normalize {
    pub fn render(&self) -> (r: String)
        ensures
            r@ == normalize_text(*self),
    {
        let mut r = self.alias.render();
        r.append(" -> ");
        let t = self.ty.render();
        r.append(t.as_str());
        r
    }
}

impl DomainGoal {
    pub fn render(&self) -> (r: String)
        ensures
            r@ == domain_goal_text(*self),
    {
        match self {
            DomainGoal::Holds(w) => w.render(),
            DomainGoal::WellFormed(WellFormed::Ty(t)) => call_form("WellFormed(", t.render()),
            DomainGoal::WellFormed(WellFormed::Trait(t)) => call_form("WellFormed(", t.render()),
            DomainGoal::FromEnv(FromEnv::Ty(t)) => call_form("FromEnv(", t.render()),
            DomainGoal::FromEnv(FromEnv::Trait(t)) => call_form("FromEnv(", t.render()),
            DomainGoal::IsUpstream(t) => call_form("IsUpstream(", t.render()),
            DomainGoal::IsLocal(t) => call_form("IsLocal(", t.render()),
            DomainGoal::IsFullyVisible(t) => call_form("IsFullyVisible(", t.render()),
            DomainGoal::DownstreamType(t) => call_form("DownstreamType(", t.render()),
            DomainGoal::Compatible => String::from_str("Compatible"),
            DomainGoal::Reveal => String::from_str("Reveal"),
            DomainGoal::Normalize(n) => call_form("Normalize(", n.render()),
            DomainGoal::ObjectSafe(id) => call_form("ObjectSafe(", id.clone()),
            DomainGoal::LocalImplAllowed(t) => call_form("LocalImplAllowed(", t.render()),
        }
    }
}

impl QuantifierKind {
    pub fn render(&self) -> (r: String)
        ensures
            r@ == quantifier_text(*self),
    {
        match self {
            QuantifierKind::ForAll => String::from_str("forall"),
            QuantifierKind::Exists => String::from_str("exists"),
        }
    }
}

impl Goal {
    pub fn render(&self) -> (r: String)
        ensures
            r@ == goal_text(*self),
        decreases self,
    {
        match self {
            Goal::Not(inner) => {
                let mut r = String::from_str("not { ");
                let t = inner.render();
                r.append(t.as_str());
                r.append(" }");
                r
            },
            Goal::All(gs) => {
                let parts = render_goals(gs);
                join(&parts, ", ")
            },
            Goal::Quantified(kind, bs, body) => {
                let mut r = kind.render();
                let b = render_binders(bs);
                r.append(b.as_str());
                r.append(" { ");
                let t = body.render();
                r.append(t.as_str());
                r.append(" }");
                r
            },
            Goal::Implies(cs, body) => {
                let mut r = String::from_str("if (");
                let parts = render_clauses(cs);
                let hyps = join(&parts, "; ");
                r.append(hyps.as_str());
                r.append(") ");
                r.append("{ ");
                let t = body.render();
                r.append(t.as_str());
                r.append(" }");
                r
            },
            Goal::EqGoal(a, b) => {
                let mut r = a.render();
                r.append(" = ");
                let t = b.render();
                r.append(t.as_str());
                r
            },
            Goal::DomainGoal(d) => d.render(),
            Goal::CannotProve => String::from_str("{cannot prove}"),
        }
    }
}

/// The text of each goal, in order.
pub fn render_goals(gs: &Vec<Goal>) -> (r: Vec<String>)
    ensures
        names(r@) == goals_texts(gs@),
    decreases gs,
{
    let mut parts: Vec<String> = Vec::new();
    let mut i: usize = 0;
    while i < gs.len()
        invariant
            0 <= i <= gs.len(),
            names(parts@) == goals_texts(gs@.take(i as int)),
        decreases gs.len() - i,
    {
        let t = gs[i].render();
        proof {
            assert(gs@.take(i + 1).drop_last() =~= gs@.take(i as int));
        }
        let ghost before = parts@;
        parts.push(t);
        assert(names(parts@) =~= names(before).push(t@));
        i = i + 1;
    }
    assert(gs@.take(gs.len() as int) =~= gs@);
    parts
}

impl ProgramClause {
    pub fn render(&self) -> (r: String)
        ensures
            r@ == clause_text(*self),
        decreases self,
    {
        let mut body = self.consequence.render();
        if self.conditions.len() != 0 {
            body.append(" :- ");
            let parts = render_goals(&self.conditions);
            let conds = join(&parts, ",");
            body.append(conds.as_str());
        }
        if self.binders.len() == 0 {
            body
        } else {
            let mut r = String::from_str("forall");
            let b = render_binders(&self.binders);
            r.append(b.as_str());
            r.append(" { ");
            r.append(body.as_str());
            r.append(" }");
            r
        }
    }
}

/// The text of each clause, in order.
pub fn render_clauses(cs: &Vec<ProgramClause>) -> (r: Vec<String>)
    ensures
        names(r@) == clauses_texts(cs@),
    decreases cs,
{
    let mut parts: Vec<String> = Vec::new();
    let mut i: usize = 0;
    while i < cs.len()
        invariant
            0 <= i <= cs.len(),
            names(parts@) == clauses_texts(cs@.take(i as int)),
        decreases cs.len() - i,
    {
        let t = cs[i].render();
        proof {
            assert(cs@.take(i + 1).drop_last() =~= cs@.take(i as int));
        }
        let ghost before = parts@;
        parts.push(t);
        assert(names(parts@) =~= names(before).push(t@));
        i = i + 1;
    }
    assert(cs@.take(cs.len() as int) =~= cs@);
    parts
}

} // verus!
