use translator::{Convert, Identifier, IdentifierFactory};

#[test]
fn identifier_renders_prefix_and_index() {
    assert_eq!(Identifier::new(0).convert(), "identifier_0");
    assert_eq!(Identifier::new(42).convert(), "identifier_42");
}

#[test]
fn factory_starts_at_zero_and_counts_up() {
    let mut factory = IdentifierFactory::default();
    let first = factory.new();
    let second = factory.new();
    let third = factory.new();
    assert_eq!(first, Identifier::new(0));
    assert_eq!(second, Identifier::new(1));
    assert_eq!(third, Identifier::new(2));
    assert_ne!(first, second);
    assert_ne!(second, third);
    assert_ne!(first, third);
}

#[test]
fn factory_issues_strictly_increasing_indices() {
    let mut factory = IdentifierFactory::default();
    let mut issued: Vec<Identifier> = Vec::new();
    for _ in 0..50 {
        assert!(!factory.is_exhausted());
        issued.push(factory.new());
    }
    for (position, identifier) in issued.iter().enumerate() {
        assert_eq!(*identifier, Identifier::new(position));
        assert_eq!(identifier.convert(), format!("identifier_{}", position));
    }
    for i in 0..issued.len() {
        for j in (i + 1)..issued.len() {
            assert_ne!(issued[i], issued[j]);
        }
    }
}

#[test]
fn factories_count_independently() {
    let mut first = IdentifierFactory::default();
    let mut second = IdentifierFactory::default();
    assert_eq!(first.new(), Identifier::new(0));
    assert_eq!(first.new(), Identifier::new(1));
    assert_eq!(second.new(), Identifier::new(0));
    assert_eq!(first.new(), Identifier::new(2));
    assert_eq!(second.new(), Identifier::new(1));
}

#[test]
fn fresh_factory_is_not_exhausted() {
    let factory = IdentifierFactory::default();
    assert!(!factory.is_exhausted());
}

#[test]
fn identifier_is_a_copyable_value_compared_by_index() {
    let a = Identifier::new(7);
    let b = a;
    assert_eq!(a, b);
    assert_eq!(a, Identifier::new(7));
    assert_ne!(a, Identifier::new(8));
    assert_eq!(a.convert(), b.convert());
}
