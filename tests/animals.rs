use design_patterns::factory_method::{
    Animal, AnimalFactory, AnimalFactoryRegistry, AnyFactory, BirdFactory, Cat, CatFactory, Dog,
    DogFactory, UnknownFactory,
};

#[test]
fn test_dog_factory() {
    let factory = DogFactory;
    let dog = factory.create_animal("Buddy".to_string());
    assert_eq!(dog.name(), "Buddy");
    assert_eq!(dog.species(), "Dog");
}

#[test]
fn test_cat_factory() {
    let factory = CatFactory;
    let cat = factory.create_animal("Whiskers".to_string());
    assert_eq!(cat.name(), "Whiskers");
    assert_eq!(cat.species(), "Cat");
}

#[test]
fn test_registry() {
    let registry = AnimalFactoryRegistry::new();
    let dog = registry.create_animal("dog", "Rex".to_string());
    assert_eq!(dog.species(), "Dog");

    let cat = registry.create_animal("CAT", "Fluffy".to_string());
    assert_eq!(cat.species(), "Cat");
}

#[test]
fn test_unknown_animal_type() {
    let registry = AnimalFactoryRegistry::new();
    let result = registry.create_animal("elephant", "Dumbo".to_string());
    assert_eq!(result.species(), "Unknown");
}

#[test]
fn animals_speak() {
    assert_eq!(Dog::new("Rex".to_string()).speak(), "Rex barks: Woof!");
    assert_eq!(Cat::new("Tom".to_string()).speak(), "Tom meows: Meow!");
    let bird = BirdFactory.create_animal("Rio".to_string());
    assert_eq!(bird.speak(), "Rio chirps: Tweet!");
    let other = UnknownFactory.create_animal("Nemo".to_string());
    assert_eq!(other.speak(), "Nemo says: ???");
}

#[test]
fn factory_introduces_animal() {
    assert_eq!(
        DogFactory.create_and_introduce("Buddy".to_string()),
        "Created a new Dog named Buddy\nBuddy barks: Woof!"
    );
    let registry = AnimalFactoryRegistry::new();
    assert_eq!(
        registry.create_and_introduce("fish", "Nemo".to_string()),
        "Created a new Unknown named Nemo\nNemo says: ???"
    );
    assert_eq!(
        registry.create_and_introduce("Bird", "Charlie".to_string()),
        "Created a new Bird named Charlie\nCharlie chirps: Tweet!"
    );
}

#[test]
fn registry_lists_kinds_once() {
    let mut registry = AnimalFactoryRegistry::default();
    let mut kinds = registry.available_types();
    kinds.sort();
    assert_eq!(kinds, vec!["bird", "cat", "dog", "unknown"]);
    registry.register("Cat".to_string(), AnyFactory::Dog(DogFactory));
    registry.register("FISH".to_string(), AnyFactory::Bird(BirdFactory));
    let mut kinds = registry.available_types();
    kinds.sort();
    assert_eq!(kinds, vec!["bird", "cat", "dog", "fish", "unknown"]);
    assert_eq!(registry.create_animal("cat", "Odd".to_string()).species(), "Dog");
    assert_eq!(registry.create_animal("Fish", "Wanda".to_string()).species(), "Bird");
}

#[test]
fn exact_key_lookups() {
    let mut registry = AnimalFactoryRegistry::new();
    assert_eq!(registry.create_by_key("bird", "Rio".to_string()).species(), "Bird");
    // keys are matched exactly here: no folding of case
    assert_eq!(registry.create_by_key("Bird", "Rio".to_string()).species(), "Unknown");
    assert_eq!(
        registry.introduce_by_key("cat", "Tom".to_string()),
        "Created a new Cat named Tom\nTom meows: Meow!"
    );
    registry.register_key("Horse".to_string(), AnyFactory::Dog(DogFactory));
    assert_eq!(registry.create_by_key("Horse", "Ed".to_string()).species(), "Dog");
    assert_eq!(registry.create_animal("Horse", "Ed".to_string()).species(), "Unknown");
}
