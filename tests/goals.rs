use chalk_memo::display::{
    AliasTy, DomainGoal, FromEnv, GenericArg, Goal, Normalize, ProgramClause, QuantifierKind,
    TraitRef, Ty, WellFormed, WhereClause,
};

fn s(x: &str) -> String {
    x.to_string()
}

fn named(x: &str) -> Ty {
    Ty::Named(s(x))
}

fn reference(lt: &str, t: Ty) -> Ty {
    Ty::Ref(s(lt), Box::new(t))
}

fn trait_ref(self_ty: Ty, name: &str) -> TraitRef {
    TraitRef { self_ty, trait_name: s(name) }
}

fn domain(d: DomainGoal) -> Goal {
    Goal::DomainGoal(d)
}

fn wf_ty(t: Ty) -> Goal {
    domain(DomainGoal::WellFormed(WellFormed::Ty(t)))
}

fn outlives(a: &str, b: &str) -> DomainGoal {
    DomainGoal::Holds(WhereClause::LifetimeOutlives(s(a), s(b)))
}

fn quantified(kind: QuantifierKind, binders: &[&str], body: Goal) -> Goal {
    Goal::Quantified(kind, binders.iter().map(|b| s(b)).collect(), Box::new(body))
}

fn fact(consequence: DomainGoal) -> ProgramClause {
    ProgramClause { binders: vec![], consequence, conditions: vec![] }
}

fn wf_refs_a_b() -> Goal {
    Goal::All(vec![
        wf_ty(reference("'a", named("T"))),
        wf_ty(reference("'b", named("T"))),
    ])
}

#[test]
fn test_well_formed_goal() {
    let g = Goal::All(vec![
        wf_ty(named("u32")),
        domain(DomainGoal::WellFormed(WellFormed::Trait(trait_ref(named("u32"), "Foo")))),
    ]);
    assert_eq!(g.render(), "WellFormed(u32), WellFormed(u32: Foo)");
}

#[test]
fn test_from_env_goal() {
    let g = Goal::All(vec![
        domain(DomainGoal::FromEnv(FromEnv::Ty(named("u32")))),
        domain(DomainGoal::FromEnv(FromEnv::Trait(trait_ref(named("u32"), "Foo")))),
    ]);
    assert_eq!(g.render(), "FromEnv(u32), FromEnv(u32: Foo)");
}

#[test]
fn test_is_local_goal() {
    let g = domain(DomainGoal::IsLocal(named("u32")));
    assert_eq!(g.render(), "IsLocal(u32)");
}

#[test]
fn test_is_upstream_goal() {
    let g = domain(DomainGoal::IsUpstream(named("u32")));
    assert_eq!(g.render(), "IsUpstream(u32)");
}

#[test]
fn test_is_fully_visible_goal() {
    let g = domain(DomainGoal::IsFullyVisible(named("u32")));
    assert_eq!(g.render(), "IsFullyVisible(u32)");
}

#[test]
fn test_local_impl_allowed_goal() {
    let g = domain(DomainGoal::LocalImplAllowed(trait_ref(named("u32"), "Foo")));
    assert_eq!(g.render(), "LocalImplAllowed(u32: Foo)");
}

#[test]
fn test_compatible_goal() {
    assert_eq!(domain(DomainGoal::Compatible).render(), "Compatible");
}

#[test]
fn test_reveal_goal() {
    assert_eq!(domain(DomainGoal::Reveal).render(), "Reveal");
}

#[test]
fn test_normalize_goal() {
    let alias = AliasTy { self_ty: named("u32"), trait_name: s("Foo"), assoc_name: s("Assoc") };
    let g = domain(DomainGoal::Normalize(Normalize { alias, ty: named("i32") }));
    assert_eq!(g.render(), "Normalize(<u32 as Foo>::Assoc -> i32)");
}

#[test]
fn test_object_safe_goal() {
    let g = domain(DomainGoal::ObjectSafe(s("Foo")));
    assert_eq!(g.render(), "ObjectSafe(Foo)");
}

#[test]
fn test_forall_goal() {
    let g = quantified(QuantifierKind::ForAll, &["'a", "T"], wf_ty(reference("'a", named("T"))));
    assert_eq!(g.render(), "forall<'a, T> { WellFormed(&'a T) }");
}

#[test]
fn test_not_goal() {
    let g = Goal::Not(Box::new(wf_ty(named("u32"))));
    assert_eq!(g.render(), "not { WellFormed(u32) }");
}

#[test]
fn test_implies_goal() {
    let first = Goal::Implies(vec![fact(outlives("'a", "'b"))], Box::new(wf_refs_a_b()));
    let second = Goal::Implies(
        vec![
            fact(outlives("'a", "'b")),
            fact(DomainGoal::Holds(WhereClause::Implemented(trait_ref(named("T"), "Foo")))),
        ],
        Box::new(wf_refs_a_b()),
    );
    let for_all_c = ProgramClause {
        binders: vec![s("'c")],
        consequence: outlives("'c", "'a"),
        conditions: vec![],
    };
    let rule = ProgramClause {
        binders: vec![],
        consequence: DomainGoal::WellFormed(WellFormed::Ty(reference("'a", named("T")))),
        conditions: vec![wf_ty(reference("'b", named("T")))],
    };
    let third = Goal::Implies(vec![for_all_c, rule], Box::new(wf_ty(reference("'a", named("T")))));
    let g = quantified(
        QuantifierKind::Exists,
        &["'a", "'b", "T"],
        Goal::All(vec![first, second, third]),
    );
    assert_eq!(
        g.render(),
        "exists<'a, 'b, T> { \
         if ('a: 'b) { WellFormed(&'a T), WellFormed(&'b T) }, \
         if ('a: 'b; T: Foo) { WellFormed(&'a T), WellFormed(&'b T) }, \
         if (forall<'c> { 'c: 'a }; WellFormed(&'a T) :- WellFormed(&'b T)) { WellFormed(&'a T) } }"
    );
}

#[test]
fn test_exists_goal() {
    let eq = |a: &str, lt: &str, b: &str| {
        Goal::EqGoal(GenericArg::Ty(named(a)), GenericArg::Ty(reference(lt, named(b))))
    };
    let g = quantified(
        QuantifierKind::Exists,
        &["'a", "T", "E"],
        Goal::All(vec![
            quantified(QuantifierKind::Exists, &["G"], eq("T", "'a", "G")),
            quantified(QuantifierKind::Exists, &["'b"], eq("T", "'b", "E")),
        ]),
    );
    assert_eq!(
        g.render(),
        "exists<'a, T, E> { exists<G> { T = &'a G }, exists<'b> { T = &'b E } }"
    );
}

#[test]
fn test_unify_goal() {
    let g = quantified(
        QuantifierKind::Exists,
        &["A", "B"],
        Goal::EqGoal(GenericArg::Ty(named("A")), GenericArg::Ty(named("B"))),
    );
    assert_eq!(g.render(), "exists<A, B> { A = B }");
}

#[test]
fn test_where_clause() {
    let assoc = AliasTy { self_ty: named("B"), trait_name: s("BTrait"), assoc_name: s("Assoc") };
    let g = quantified(
        QuantifierKind::Exists,
        &["A", "B", "'a", "'b"],
        Goal::All(vec![
            domain(outlives("'a", "'b")),
            domain(DomainGoal::Holds(WhereClause::TypeOutlives(named("A"), s("'a")))),
            domain(DomainGoal::Holds(WhereClause::Implemented(trait_ref(named("A"), "ATrait")))),
            domain(DomainGoal::Holds(WhereClause::AliasEq(assoc, named("A")))),
            domain(DomainGoal::Holds(WhereClause::Implemented(trait_ref(named("B"), "BTrait")))),
        ]),
    );
    assert_eq!(
        g.render(),
        "exists<A, B, 'a, 'b> { 'a: 'b, A: 'a, A: ATrait, B: BTrait<Assoc = A>, B: BTrait }"
    );
}

#[test]
fn test_and_goal() {
    let g = Goal::All(vec![
        wf_ty(named("u32")),
        wf_ty(named("i32")),
        domain(DomainGoal::Compatible),
    ]);
    assert_eq!(g.render(), "WellFormed(u32), WellFormed(i32), Compatible");
}

#[test]
fn empty_conjunction_renders_empty() {
    assert_eq!(Goal::All(vec![]).render(), "");
}

#[test]
fn quantifier_without_binders_has_no_brackets() {
    let g = quantified(QuantifierKind::ForAll, &[], domain(DomainGoal::Reveal));
    assert_eq!(g.render(), "forall { Reveal }");
}

#[test]
fn cannot_prove_and_downstream_render() {
    assert_eq!(Goal::CannotProve.render(), "{cannot prove}");
    let g = domain(DomainGoal::DownstreamType(named("u8")));
    assert_eq!(g.render(), "DownstreamType(u8)");
}

#[test]
fn clause_with_binders_and_conditions() {
    let c = ProgramClause {
        binders: vec![s("T")],
        consequence: DomainGoal::IsLocal(named("T")),
        conditions: vec![wf_ty(named("T")), domain(DomainGoal::Compatible)],
    };
    assert_eq!(c.render(), "forall<T> { IsLocal(T) :- WellFormed(T),Compatible }");
}

#[test]
fn lifetime_argument_renders_as_named() {
    let g = Goal::EqGoal(GenericArg::Lifetime(s("'a")), GenericArg::Lifetime(s("'b")));
    assert_eq!(g.render(), "'a = 'b");
}
