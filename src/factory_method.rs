use vstd::prelude::*;
use vstd::string::*;

verus! {

/// A creature with a name, a species and a way of speaking.
pub trait Animal {
    spec fn spec_name(&self) -> Seq<char>;

    spec fn spec_species(&self) -> Seq<char>;

    /// The line the animal says.
    spec fn spec_speech(&self) -> Seq<char>;

    fn speak(&self) -> (r: String)
        ensures
            r@ == self.spec_speech(),
    ;

    fn name(&self) -> (r: &str)
        ensures
            r@ == self.spec_name(),
    ;

    fn species(&self) -> (r: &str)
        ensures
            r@ == self.spec_species(),
    ;
}

#[derive(Debug, Clone)]
pub struct Dog {
    name: String,
}

#[derive(Debug, Clone)]
pub struct Cat {
    name: String,
}

#[derive(Debug, Clone)]
pub struct Bird {
    name: String,
}

/// The animal made when the requested kind is not known.
#[derive(Debug, Clone)]
pub struct Unknown {
    name: String,
}

impl Dog {
    pub fn new(name: String) -> (r: Dog)
        ensures
            r.spec_name() == name@,
    {
        Dog { name }
    }
}

impl Cat {
    pub fn new(name: String) -> (r: Cat)
        ensures
            r.spec_name() == name@,
    {
        Cat { name }
    }
}

impl Bird {
    pub fn new(name: String) -> (r: Bird)
        ensures
            r.spec_name() == name@,
    {
        Bird { name }
    }
}

impl Unknown {
    pub fn new(name: String) -> (r: Unknown)
        ensures
            r.spec_name() == name@,
    {
        Unknown { name }
    }
}

impl Animal for Dog {
    closed spec fn spec_name(&self) -> Seq<char> {
        self.name@
    }

    open spec fn spec_species(&self) -> Seq<char> {
        "Dog"@
    }

    closed spec fn spec_speech(&self) -> Seq<char> {
        self.name@ + " barks: Woof!"@
    }

    fn speak(&self) -> (r: String) {
        self.name.clone().concat(" barks: Woof!")
    }

    fn name(&self) -> (r: &str) {
        self.name.as_str()
    }

    fn species(&self) -> (r: &str) {
        "Dog"
    }
}

impl Animal for Cat {
    closed spec fn spec_name(&self) -> Seq<char> {
        self.name@
    }

    open spec fn spec_species(&self) -> Seq<char> {
        "Cat"@
    }

    closed spec fn spec_speech(&self) -> Seq<char> {
        self.name@ + " meows: Meow!"@
    }

    fn speak(&self) -> (r: String) {
        self.name.clone().concat(" meows: Meow!")
    }

    fn name(&self) -> (r: &str) {
        self.name.as_str()
    }

    fn species(&self) -> (r: &str) {
        "Cat"
    }
}

impl Animal for Bird {
    closed spec fn spec_name(&self) -> Seq<char> {
        self.name@
    }

    open spec fn spec_species(&self) -> Seq<char> {
        "Bird"@
    }

    closed spec fn spec_speech(&self) -> Seq<char> {
        self.name@ + " chirps: Tweet!"@
    }

    fn speak(&self) -> (r: String) {
        self.name.clone().concat(" chirps: Tweet!")
    }

    fn name(&self) -> (r: &str) {
        self.name.as_str()
    }

    fn species(&self) -> (r: &str) {
        "Bird"
    }
}

impl Animal for Unknown {
    closed spec fn spec_name(&self) -> Seq<char> {
        self.name@
    }

    open spec fn spec_species(&self) -> Seq<char> {
        "Unknown"@
    }

    closed spec fn spec_speech(&self) -> Seq<char> {
        self.name@ + " says: ???"@
    }

    fn speak(&self) -> (r: String) {
        self.name.clone().concat(" says: ???")
    }

    fn name(&self) -> (r: &str) {
        self.name.as_str()
    }

    fn species(&self) -> (r: &str) {
        "Unknown"
    }
}

/// Any of the animals a factory can make.
pub enum AnyAnimal {
    Dog(Dog),
    Cat(Cat),
    Bird(Bird),
    Unknown(Unknown),
}

impl Animal for AnyAnimal {
    open spec fn spec_name(&self) -> Seq<char> {
        match self {
            AnyAnimal::Dog(a) => a.spec_name(),
            AnyAnimal::Cat(a) => a.spec_name(),
            AnyAnimal::Bird(a) => a.spec_name(),
            AnyAnimal::Unknown(a) => a.spec_name(),
        }
    }

    open spec fn spec_species(&self) -> Seq<char> {
        match self {
            AnyAnimal::Dog(a) => a.spec_species(),
            AnyAnimal::Cat(a) => a.spec_species(),
            AnyAnimal::Bird(a) => a.spec_species(),
            AnyAnimal::Unknown(a) => a.spec_species(),
        }
    }

    open spec fn spec_speech(&self) -> Seq<char> {
        match self {
            AnyAnimal::Dog(a) => a.spec_speech(),
            AnyAnimal::Cat(a) => a.spec_speech(),
            AnyAnimal::Bird(a) => a.spec_speech(),
            AnyAnimal::Unknown(a) => a.spec_speech(),
        }
    }

    fn speak(&self) -> (r: String) {
        match self {
            AnyAnimal::Dog(a) => a.speak(),
            AnyAnimal::Cat(a) => a.speak(),
            AnyAnimal::Bird(a) => a.speak(),
            AnyAnimal::Unknown(a) => a.speak(),
        }
    }

    fn name(&self) -> (r: &str) {
        match self {
            AnyAnimal::Dog(a) => a.name(),
            AnyAnimal::Cat(a) => a.name(),
            AnyAnimal::Bird(a) => a.name(),
            AnyAnimal::Unknown(a) => a.name(),
        }
    }

    fn species(&self) -> (r: &str) {
        match self {
            AnyAnimal::Dog(a) => a.species(),
            AnyAnimal::Cat(a) => a.species(),
            AnyAnimal::Bird(a) => a.species(),
            AnyAnimal::Unknown(a) => a.species(),
        }
    }
}


/// The text that introduces a newly made animal: a line naming its species
/// and name, then what it says.
pub open spec fn introduction(species: Seq<char>, name: Seq<char>, speech: Seq<char>) -> Seq<char> {
    "Created a new "@ + species + " named "@ + name + "\n"@ + speech
}

/// Makes animals of one species.
pub trait AnimalFactory {
    /// The species of the animals made.
    spec fn spec_species(&self) -> Seq<char>;

    /// What an animal of this factory with the given name says.
    spec fn spec_speech_for(&self, name: Seq<char>) -> Seq<char>;

    fn create_animal(&self, name: String) -> (r: AnyAnimal)
        ensures
            r.spec_name() == name@,
            r.spec_species() == self.spec_species(),
            r.spec_speech() == self.spec_speech_for(name@),
    ;

    /// Makes an animal and returns its introduction.
    fn create_and_introduce(&self, name: String) -> (r: String)
        ensures
            r@ == introduction(self.spec_species(), name@, self.spec_speech_for(name@)),
    {
        let animal = self.create_animal(name);
        let text = String::from_str("Created a new ").concat(animal.species()).concat(
            " named ",
        ).concat(animal.name()).concat("\n");
        let speech = animal.speak();
        text.concat(speech.as_str())
    }
}

pub struct DogFactory;

pub struct CatFactory;

pub struct BirdFactory;

pub struct UnknownFactory;

impl AnimalFactory for DogFactory {
    open spec fn spec_species(&self) -> Seq<char> {
        "Dog"@
    }

    open spec fn spec_speech_for(&self, name: Seq<char>) -> Seq<char> {
        name + " barks: Woof!"@
    }

    fn create_animal(&self, name: String) -> (r: AnyAnimal) {
        AnyAnimal::Dog(Dog::new(name))
    }
}

impl AnimalFactory for CatFactory {
    open spec fn spec_species(&self) -> Seq<char> {
        "Cat"@
    }

    open spec fn spec_speech_for(&self, name: Seq<char>) -> Seq<char> {
        name + " meows: Meow!"@
    }

    fn create_animal(&self, name: String) -> (r: AnyAnimal) {
        AnyAnimal::Cat(Cat::new(name))
    }
}

impl AnimalFactory for BirdFactory {
    open spec fn spec_species(&self) -> Seq<char> {
        "Bird"@
    }

    open spec fn spec_speech_for(&self, name: Seq<char>) -> Seq<char> {
        name + " chirps: Tweet!"@
    }

    fn create_animal(&self, name: String) -> (r: AnyAnimal) {
        AnyAnimal::Bird(Bird::new(name))
    }
}

impl AnimalFactory for UnknownFactory {
    open spec fn spec_species(&self) -> Seq<char> {
        "Unknown"@
    }

    open spec fn spec_speech_for(&self, name: Seq<char>) -> Seq<char> {
        name + " says: ???"@
    }

    fn create_animal(&self, name: String) -> (r: AnyAnimal) {
        AnyAnimal::Unknown(Unknown::new(name))
    }
}

/// Any of the factories a registry can hold.
pub enum AnyFactory {
    Dog(DogFactory),
    Cat(CatFactory),
    Bird(BirdFactory),
    Unknown(UnknownFactory),
}

impl AnimalFactory for AnyFactory {
    open spec fn spec_species(&self) -> Seq<char> {
        match self {
            AnyFactory::Dog(f) => f.spec_species(),
            AnyFactory::Cat(f) => f.spec_species(),
            AnyFactory::Bird(f) => f.spec_species(),
            AnyFactory::Unknown(f) => f.spec_species(),
        }
    }

    open spec fn spec_speech_for(&self, name: Seq<char>) -> Seq<char> {
        match self {
            AnyFactory::Dog(f) => f.spec_speech_for(name),
            AnyFactory::Cat(f) => f.spec_speech_for(name),
            AnyFactory::Bird(f) => f.spec_speech_for(name),
            AnyFactory::Unknown(f) => f.spec_speech_for(name),
        }
    }

    fn create_animal(&self, name: String) -> (r: AnyAnimal) {
        match self {
            AnyFactory::Dog(f) => f.create_animal(name),
            AnyFactory::Cat(f) => f.create_animal(name),
            AnyFactory::Bird(f) => f.create_animal(name),
            AnyFactory::Unknown(f) => f.create_animal(name),
        }
    }
}


/// Lower-case form of a string, as Unicode defines it.
pub uninterp spec fn lower_of(s: Seq<char>) -> Seq<char>;

/// Relies on str::to_lowercase: the result depends on the characters alone.
#[verifier::external_body]
fn lowercase(s: &str) -> (r: String)
    ensures
        r@ == lower_of(s@),
{
    s.to_lowercase()
}

/// Factories by the lower-case name of the kind of animal they make.
pub struct AnimalFactoryRegistry {
    factories: Vec<(String, AnyFactory)>,
}

impl AnimalFactoryRegistry {
    /// The registered kinds, in the order they were first registered.
    pub closed spec fn spec_keys(&self) -> Seq<Seq<char>> {
        self.factories@.map_values(|e: (String, AnyFactory)| e.0@)
    }

    /// The factory registered under `key`, if any.
    pub closed spec fn spec_lookup(&self, key: Seq<char>) -> Option<AnyFactory> {
        if exists|i: int| 0 <= i < self.factories@.len() && #[trigger] self.factories@[i].0@ == key {
            let i = choose|i: int| 0 <= i < self.factories@.len() && #[trigger] self.factories@[i].0@ == key;
            Some(self.factories@[i].1)
        } else {
            None
        }
    }

    /// Each kind is registered once.
    pub closed spec fn keys_unique(&self) -> bool {
        forall|i: int, j: int|
            0 <= i < j < self.factories@.len() ==> #[trigger] self.factories@[i].0@
                != #[trigger] self.factories@[j].0@
    }

    /// Each kind is registered once, and the fallback kind is present.
    pub open spec fn wf(&self) -> bool {
        &&& self.keys_unique()
        &&& self.spec_keys().contains("unknown"@)
    }

    /// The factory used for `key`: the one registered under it, else the
    /// fallback one.
    pub open spec fn spec_resolve(&self, key: Seq<char>) -> AnyFactory {
        match self.spec_lookup(key) {
            Some(f) => f,
            None => self.spec_lookup("unknown"@)->Some_0,
        }
    }

    pub fn new() -> (r: AnimalFactoryRegistry)
        ensures
            r.wf(),
            r.spec_keys() == seq!["dog"@, "cat"@, "bird"@, "unknown"@],
            r.spec_lookup("dog"@) == Some(AnyFactory::Dog(DogFactory)),
            r.spec_lookup("cat"@) == Some(AnyFactory::Cat(CatFactory)),
            r.spec_lookup("bird"@) == Some(AnyFactory::Bird(BirdFactory)),
            r.spec_lookup("unknown"@) == Some(AnyFactory::Unknown(UnknownFactory)),
    {
        let mut factories: Vec<(String, AnyFactory)> = Vec::new();
        factories.push((String::from_str("dog"), AnyFactory::Dog(DogFactory)));
        factories.push((String::from_str("cat"), AnyFactory::Cat(CatFactory)));
        factories.push((String::from_str("bird"), AnyFactory::Bird(BirdFactory)));
        factories.push((String::from_str("unknown"), AnyFactory::Unknown(UnknownFactory)));
        let r = AnimalFactoryRegistry { factories };
        proof {
            reveal_strlit("dog");
            reveal_strlit("cat");
            reveal_strlit("bird");
            reveal_strlit("unknown");
            r.lemma_keys();
            assert(r.spec_keys() =~= seq!["dog"@, "cat"@, "bird"@, "unknown"@]);
            assert(r.spec_keys()[3] == "unknown"@);
            assert forall|i: int, j: int| 0 <= i < j < r.factories@.len() implies #[trigger] r.factories@[i].0@
                != #[trigger] r.factories@[j].0@ by {
                assert(r.factories@[i].0@[0] != r.factories@[j].0@[0] || r.factories@[i].0@.len() != r.factories@[j].0@.len());
            }
            r.lemma_lookup_at(0);
            r.lemma_lookup_at(1);
            r.lemma_lookup_at(2);
            r.lemma_lookup_at(3);
        }
        r
    }

    fn resolve_index(&self, key: &String) -> (i: usize)
        requires
            self.wf(),
        ensures
            i < self.factories@.len(),
            self.factories@[i as int].1 == self.spec_resolve(key@),
    {
        proof {
            self.lemma_keys();
        }
        match self.position(key) {
            Some(i) => {
                proof {
                    self.lemma_lookup_at(i as int);
                }
                i
            },
            None => {
                let fallback = String::from_str("unknown");
                let ghost j = choose|j: int| 0 <= j < self.spec_keys().len() && self.spec_keys()[j] == "unknown"@;
                assert(self.factories@[j].0@ == fallback@);
                let i = self.position(&fallback).unwrap();
                proof {
                    self.lemma_lookup_at(i as int);
                }
                i
            },
        }
    }

    /// Makes an animal with the factory registered under the lower-case form
    /// of `animal_type`, or with the fallback factory when there is none.
    pub fn create_animal(&self, animal_type: &str, name: String) -> (r: AnyAnimal)
        requires
            self.wf(),
        ensures
            r.spec_name() == name@,
            r.spec_species() == self.spec_resolve(lower_of(animal_type@)).spec_species(),
            r.spec_speech() == self.spec_resolve(lower_of(animal_type@)).spec_speech_for(name@),
    {
        let key = lowercase(animal_type);
        self.create_by_key(key.as_str(), name)
    }

    /// Makes an animal with the factory registered under `key` exactly, or
    /// with the fallback factory when there is none.
    pub fn create_by_key(&self, key: &str, name: String) -> (r: AnyAnimal)
        requires
            self.wf(),
        ensures
            r.spec_name() == name@,
            r.spec_species() == self.spec_resolve(key@).spec_species(),
            r.spec_speech() == self.spec_resolve(key@).spec_speech_for(name@),
    {
        let i = self.resolve_index(&String::from_str(key));
        self.factories[i].1.create_animal(name)
    }

    /// The registered kinds.
    pub fn available_types(&self) -> (r: Vec<String>)
        ensures
            r@.map_values(|s: String| s@) == self.spec_keys(),
    {
        let mut r: Vec<String> = Vec::new();
        let mut i: usize = 0;
        while i < self.factories.len()
            invariant
                i <= self.factories@.len(),
                r@.len() == i,
                forall|k: int| 0 <= k < i ==> #[trigger] r@[k]@ == self.factories@[k].0@,
            decreases self.factories@.len() - i,
        {
            r.push(self.factories[i].0.clone());
            i = i + 1;
        }
        proof {
            self.lemma_keys();
            assert(r@.map_values(|s: String| s@) =~= self.spec_keys());
        }
        r
    }

    /// Makes an animal as `create_animal` does and returns its introduction.
    pub fn create_and_introduce(&self, animal_type: &str, name: String) -> (r: String)
        requires
            self.wf(),
        ensures
            r@ == introduction(
                self.spec_resolve(lower_of(animal_type@)).spec_species(),
                name@,
                self.spec_resolve(lower_of(animal_type@)).spec_speech_for(name@),
            ),
    {
        let key = lowercase(animal_type);
        self.introduce_by_key(key.as_str(), name)
    }

    /// Makes an animal as `create_by_key` does and returns its introduction.
    pub fn introduce_by_key(&self, key: &str, name: String) -> (r: String)
        requires
            self.wf(),
        ensures
            r@ == introduction(
                self.spec_resolve(key@).spec_species(),
                name@,
                self.spec_resolve(key@).spec_speech_for(name@),
            ),
    {
        let i = self.resolve_index(&String::from_str(key));
        self.factories[i].1.create_and_introduce(name)
    }

    fn position(&self, key: &String) -> (r: Option<usize>)
        ensures
            match r {
                Some(i) => i < self.factories@.len() && self.factories@[i as int].0@ == key@,
                None => forall|i: int|
                    0 <= i < self.factories@.len() ==> #[trigger] self.factories@[i].0@ != key@,
            },
    {
        let mut i: usize = 0;
        while i < self.factories.len()
            invariant
                i <= self.factories@.len(),
                forall|k: int| 0 <= k < i ==> #[trigger] self.factories@[k].0@ != key@,
            decreases self.factories@.len() - i,
        {
            if self.factories[i].0 == *key {
                return Some(i);
            }
            i = i + 1;
        }
        None
    }

    proof fn lemma_lookup_at(&self, i: int)
        requires
            self.keys_unique(),
            0 <= i < self.factories@.len(),
        ensures
            self.spec_lookup(self.factories@[i].0@) == Some(self.factories@[i].1),
    {
        let key = self.factories@[i].0@;
        assert(self.factories@[i].0@ == key);
        let j = choose|j: int| 0 <= j < self.factories@.len() && #[trigger] self.factories@[j].0@ == key;
        if j < i {
            assert(self.factories@[j].0@ != self.factories@[i].0@);
        } else if i < j {
            assert(self.factories@[i].0@ != self.factories@[j].0@);
        }
    }

    /// A kind has a factory exactly when it is among the registered kinds.
    pub proof fn lemma_lookup_matches_keys(&self)
        ensures
            forall|k: Seq<char>| #[trigger] self.spec_lookup(k) is Some <==> self.spec_keys().contains(k),
    {
        self.lemma_keys();
        assert forall|k: Seq<char>| #[trigger] self.spec_lookup(k) is Some <==> self.spec_keys().contains(k) by {
            if self.spec_keys().contains(k) {
                let i = choose|i: int| 0 <= i < self.spec_keys().len() && self.spec_keys()[i] == k;
                assert(self.factories@[i].0@ == k);
            }
            if self.spec_lookup(k) is Some {
                let i = choose|i: int| 0 <= i < self.factories@.len() && #[trigger] self.factories@[i].0@ == k;
                assert(self.spec_keys()[i] == k);
            }
        }
    }

    proof fn lemma_keys(&self)
        ensures
            self.spec_keys().len() == self.factories@.len(),
            forall|i: int| 0 <= i < self.factories@.len() ==> #[trigger] self.spec_keys()[i] == self.factories@[i].0@,
    {
    }

    /// Registers `factory` under the lower-case form of `animal_type`,
    /// replacing a factory already registered under it.
    pub fn register(&mut self, animal_type: String, factory: AnyFactory)
        requires
            old(self).keys_unique(),
        ensures
            final(self).keys_unique(),
            forall|k: Seq<char>| #[trigger] final(self).spec_lookup(k) == if k == lower_of(animal_type@) {
                Some(factory)
            } else {
                old(self).spec_lookup(k)
            },
            final(self).spec_keys() == if old(self).spec_keys().contains(lower_of(animal_type@)) {
                old(self).spec_keys()
            } else {
                old(self).spec_keys().push(lower_of(animal_type@))
            },
    {
        let key = lowercase(animal_type.as_str());
        self.register_key(key, factory);
    }

    /// Registers `factory` under `key` exactly, replacing a factory already
    /// registered under it.
    pub fn register_key(&mut self, key: String, factory: AnyFactory)
        requires
            old(self).keys_unique(),
        ensures
            final(self).keys_unique(),
            forall|k: Seq<char>| #[trigger] final(self).spec_lookup(k) == if k == key@ {
                Some(factory)
            } else {
                old(self).spec_lookup(k)
            },
            final(self).spec_keys() == if old(self).spec_keys().contains(key@) {
                old(self).spec_keys()
            } else {
                old(self).spec_keys().push(key@)
            },
    {
        let ghost lk = key@;
        let ghost at: int;
        proof {
            self.lemma_keys();
        }
        match self.position(&key) {
            Some(i) => {
                proof {
                    assert(old(self).spec_keys()[i as int] == lk);
                    at = i as int;
                }
                self.factories.set(i, (key, factory));
                proof {
                    assert(final(self).spec_keys() =~= old(self).spec_keys());
                }
            },
            None => {
                proof {
                    assert(!old(self).spec_keys().contains(lk));
                    at = self.factories@.len() as int;
                }
                self.factories.push((key, factory));
                proof {
                    assert(final(self).spec_keys() =~= old(self).spec_keys().push(lk));
                }
            },
        }
        proof {
            let n = self.factories@.len();
            self.lemma_keys();
            old(self).lemma_keys();
            assert(self.factories@[at] == (key, factory));
            self.lemma_lookup_at(at);
            assert forall|k: Seq<char>| #[trigger] self.spec_lookup(k) == if k == lk {
                Some(factory)
            } else {
                old(self).spec_lookup(k)
            } by {
                if k != lk {
                    if exists|i: int| 0 <= i < n && #[trigger] self.factories@[i].0@ == k {
                        let i = choose|i: int| 0 <= i < n && #[trigger] self.factories@[i].0@ == k;
                        self.lemma_lookup_at(i);
                        assert(old(self).factories@[i].0@ == k);
                        old(self).lemma_lookup_at(i);
                    } else if exists|i: int| 0 <= i < old(self).factories@.len() && #[trigger] old(self).factories@[i].0@ == k {
                        let i = choose|i: int| 0 <= i < old(self).factories@.len() && #[trigger] old(self).factories@[i].0@ == k;
                        assert(self.factories@[i].0@ == k);
                    }
                }
            }
        }
    }
}

impl Default for AnimalFactoryRegistry {
    fn default() -> (r: AnimalFactoryRegistry)
        ensures
            r.wf(),
            r.spec_keys() == seq!["dog"@, "cat"@, "bird"@, "unknown"@],
    {
        AnimalFactoryRegistry::new()
    }
}

} // verus!
