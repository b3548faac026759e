use guarded::AtLeast;
use guarded::Between;
use guarded::Duplicate;
use guarded::Invariant;
use guarded::IsPositive;

#[test]
fn construction_accepts_valid_value() {
    let c = Invariant::try_from_inner(5i64, IsPositive);
    assert!(c.is_some());
}

#[test]
fn construction_rejects_invalid_value() {
    let c = Invariant::try_from_inner(-1i64, IsPositive);
    assert!(c.is_none());
    let d = Invariant::try_from_inner(0i64, IsPositive);
    assert!(d.is_none());
}

#[test]
fn read_transparency() {
    let c = Invariant::try_from_inner(5i64, IsPositive).unwrap();
    assert_eq!(*c.as_inner_ref(), 5);
}

#[test]
fn mutation_commit() {
    let mut c = Invariant::try_from_inner(5i64, IsPositive).unwrap();
    let r = c.with_inner_mut(|_v| (10i64, "done"));
    assert_eq!(r, Some("done"));
    assert_eq!(*c.as_inner_ref(), 10);
}

#[test]
fn mutation_rollback() {
    let mut c = Invariant::try_from_inner(5i64, IsPositive).unwrap();
    let r = c.with_inner_mut(|_v| (-3i64, "done"));
    assert_eq!(r, None);
    assert_eq!(*c.as_inner_ref(), 5);
}

#[test]
fn mutation_sees_current_value() {
    let mut c = Invariant::try_from_inner(5i64, IsPositive).unwrap();
    let r = c.with_inner_mut(|v| (v + 1, v));
    assert_eq!(r, Some(5));
    assert_eq!(*c.as_inner_ref(), 6);
}

#[test]
fn rule_change_commit() {
    let mut c = Invariant::try_from_inner(200i64, AtLeast { min: 1 }).unwrap();
    let r = c.with_inner_mut_check(|_v, _f| (150i64, AtLeast { min: 100 }, ()));
    assert_eq!(r, Some(()));
    assert_eq!(*c.as_inner_ref(), 150);
}

#[test]
fn rule_change_failure_rolls_back_value_only() {
    let mut c = Invariant::try_from_inner(5i64, AtLeast { min: 1 }).unwrap();
    let r = c.with_inner_mut_check(|v, _f| (v, AtLeast { min: 100 }, ()));
    assert_eq!(r, None);
    // The value was rolled back ...
    assert_eq!(*c.as_inner_ref(), 5);
    // ... but the adjusted rule stayed installed: 50 now fails, 150 passes.
    assert_eq!(c.with_inner_mut(|_v| (50i64, ())), None);
    assert_eq!(*c.as_inner_ref(), 5);
    assert_eq!(c.with_inner_mut(|_v| (150i64, ())), Some(()));
    assert_eq!(*c.as_inner_ref(), 150);
}

#[test]
fn ownership_round_trip() {
    let c = Invariant::try_from_inner(5i64, IsPositive).unwrap();
    let bare = c.into_inner();
    assert_eq!(bare, 5);
    let again = Invariant::try_from_inner(bare, IsPositive).unwrap();
    assert_eq!(*again.as_inner_ref(), 5);
}

#[test]
fn owned_copy_is_independent() {
    let mut c = Invariant::try_from_inner(5i64, IsPositive).unwrap();
    let copy = c.to_owned_inner();
    assert_eq!(*copy.as_inner_ref(), 5);
    let r = c.with_inner_mut(|_v| (10i64, ()));
    assert_eq!(r, Some(()));
    assert_eq!(*c.as_inner_ref(), 10);
    // The copy holds its own value and its own copy of the rule.
    assert_eq!(*copy.as_inner_ref(), 5);
    let mut copy = copy;
    assert_eq!(copy.with_inner_mut(|_v| (-1i64, ())), None);
    assert_eq!(*copy.as_inner_ref(), 5);
}

#[test]
fn between_rule_boundaries() {
    assert!(Invariant::try_from_inner(3i64, Between { lo: 3, hi: 8 }).is_some());
    assert!(Invariant::try_from_inner(8i64, Between { lo: 3, hi: 8 }).is_some());
    assert!(Invariant::try_from_inner(2i64, Between { lo: 3, hi: 8 }).is_none());
    assert!(Invariant::try_from_inner(9i64, Between { lo: 3, hi: 8 }).is_none());
}

#[test]
fn duplicate_yields_equal_value() {
    let x: i64 = 41;
    assert_eq!(x.duplicate(), 41);
    let rule = AtLeast { min: 7 };
    assert_eq!(rule.duplicate().min, 7);
}

#[test]
fn container_copies_like_its_parts() {
    let c = Invariant::try_from_inner(5i64, IsPositive).unwrap();
    let d = c;
    assert_eq!(*c.as_inner_ref(), *d.as_inner_ref());
    let e = c.clone();
    assert_eq!(*e.as_inner_ref(), 5);
}
