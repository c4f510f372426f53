use design_patterns::abstract_factory::{AutoFactory, BMWFactory, MercedesFactory, Sedan, SUV};
use design_patterns::singleton::default_connection;

#[test]
fn test_mercedes_factory() {
    let factory = MercedesFactory;
    let sedan = factory.create_sedan();
    let suv = factory.create_suv();
    assert_eq!(sedan.go_road(), "Mercedes sedan is going on the road");
    assert_eq!(suv.go_road(), "Mercedes SUV is going on the road");
    assert_eq!(suv.go_offroad(), "Mercedes SUV is going offroad");
}

#[test]
fn test_bmw_factory() {
    let factory = BMWFactory;
    let sedan = factory.create_sedan();
    let suv = factory.create_suv();
    assert_eq!(sedan.go_road(), "Bmw sedan is going on the road");
    assert_eq!(suv.go_road(), "BMW SUV is going on the road");
    assert_eq!(suv.go_offroad(), "BMW SUV is going offroad");
}

#[test]
fn connection_is_named_default() {
    assert_eq!(default_connection().name, "default");
}
