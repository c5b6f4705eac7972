//! The fixed, ordered catalog of named image transforms.

use vstd::prelude::*;
use vstd::string::*;
use rand::seq::SliceRandom;

verus! {

/// One entry of the registry. The order of the variants is the order of the
/// catalog.
#[derive(Clone, Copy, Debug, PartialEq, Eq, Structural)]
pub enum Transform {
    Oceanic,
    Islands,
    Marine,
    Seagreen,
    Flagblue,
    Liquid,
    Diamante,
    Radio,
    Twenties,
    Rosetint,
    Mauve,
    Bluechrome,
    Vintage,
    Perfume,
    Serenity,
}

/// Number of transforms in the registry.
pub const REGISTRY_SIZE: usize = 15;

/// The catalog as a sequence, in registry order.
pub open spec fn registry_view() -> Seq<Transform> {
    seq![
        Transform::Oceanic,
        Transform::Islands,
        Transform::Marine,
        Transform::Seagreen,
        Transform::Flagblue,
        Transform::Liquid,
        Transform::Diamante,
        Transform::Radio,
        Transform::Twenties,
        Transform::Rosetint,
        Transform::Mauve,
        Transform::Bluechrome,
        Transform::Vintage,
        Transform::Perfume,
        Transform::Serenity,
    ]
}

impl Transform {
    /// Position of the transform in the registry.
    pub open spec fn position(self) -> int {
        match self {
            Transform::Oceanic => 0,
            Transform::Islands => 1,
            Transform::Marine => 2,
            Transform::Seagreen => 3,
            Transform::Flagblue => 4,
            Transform::Liquid => 5,
            Transform::Diamante => 6,
            Transform::Radio => 7,
            Transform::Twenties => 8,
            Transform::Rosetint => 9,
            Transform::Mauve => 10,
            Transform::Bluechrome => 11,
            Transform::Vintage => 12,
            Transform::Perfume => 13,
            Transform::Serenity => 14,
        }
    }

    /// The name under which the transform is known, and which prefixes the
    /// keys of the artifacts it produced.
    pub open spec fn name_view(self) -> Seq<char> {
        match self {
            Transform::Oceanic => "oceanic"@,
            Transform::Islands => "islands"@,
            Transform::Marine => "marine"@,
            Transform::Seagreen => "seagreen"@,
            Transform::Flagblue => "flagblue"@,
            Transform::Liquid => "liquid"@,
            Transform::Diamante => "diamante"@,
            Transform::Radio => "radio"@,
            Transform::Twenties => "twenties"@,
            Transform::Rosetint => "rosetint"@,
            Transform::Mauve => "mauve"@,
            Transform::Bluechrome => "bluechrome"@,
            Transform::Vintage => "vintage"@,
            Transform::Perfume => "perfume"@,
            Transform::Serenity => "serenity"@,
        }
    }

    /// The transform's name.
    pub fn name(self) -> (s: &'static str)
        ensures
            s@ == self.name_view(),
    {
        match self {
            Transform::Oceanic => "oceanic",
            Transform::Islands => "islands",
            Transform::Marine => "marine",
            Transform::Seagreen => "seagreen",
            Transform::Flagblue => "flagblue",
            Transform::Liquid => "liquid",
            Transform::Diamante => "diamante",
            Transform::Radio => "radio",
            Transform::Twenties => "twenties",
            Transform::Rosetint => "rosetint",
            Transform::Mauve => "mauve",
            Transform::Bluechrome => "bluechrome",
            Transform::Vintage => "vintage",
            Transform::Perfume => "perfume",
            Transform::Serenity => "serenity",
        }
    }

    /// The transform's position in the registry.
    pub fn index(self) -> (i: usize)
        ensures
            i == self.position(),
            i < REGISTRY_SIZE,
    {
        match self {
            Transform::Oceanic => 0,
            Transform::Islands => 1,
            Transform::Marine => 2,
            Transform::Seagreen => 3,
            Transform::Flagblue => 4,
            Transform::Liquid => 5,
            Transform::Diamante => 6,
            Transform::Radio => 7,
            Transform::Twenties => 8,
            Transform::Rosetint => 9,
            Transform::Mauve => 10,
            Transform::Bluechrome => 11,
            Transform::Vintage => 12,
            Transform::Perfume => 13,
            Transform::Serenity => 14,
        }
    }

    /// The transform at a position of the registry, if the position is inside
    /// it.
    pub fn from_index(i: usize) -> (t: Option<Transform>)
        ensures
            i < REGISTRY_SIZE <==> t is Some,
            t matches Some(x) ==> x.position() == i && registry_view()[i as int] == x,
    {
        match i {
            0 => Some(Transform::Oceanic),
            1 => Some(Transform::Islands),
            2 => Some(Transform::Marine),
            3 => Some(Transform::Seagreen),
            4 => Some(Transform::Flagblue),
            5 => Some(Transform::Liquid),
            6 => Some(Transform::Diamante),
            7 => Some(Transform::Radio),
            8 => Some(Transform::Twenties),
            9 => Some(Transform::Rosetint),
            10 => Some(Transform::Mauve),
            11 => Some(Transform::Bluechrome),
            12 => Some(Transform::Vintage),
            13 => Some(Transform::Perfume),
            14 => Some(Transform::Serenity),
            _ => None,
        }
    }
}

/// Whether a name is that of a transform of the registry.
pub open spec fn is_registry_name(name: Seq<char>) -> bool {
    exists|t: Transform| #[trigger] t.name_view() == name
}

/// The registry as an owned list, in catalog order.
pub fn registry() -> (r: Vec<Transform>)
    ensures
        r@ == registry_view(),
{
    let r = vec![
        Transform::Oceanic,
        Transform::Islands,
        Transform::Marine,
        Transform::Seagreen,
        Transform::Flagblue,
        Transform::Liquid,
        Transform::Diamante,
        Transform::Radio,
        Transform::Twenties,
        Transform::Rosetint,
        Transform::Mauve,
        Transform::Bluechrome,
        Transform::Vintage,
        Transform::Perfume,
        Transform::Serenity,
    ];
    assert(r@ =~= registry_view());
    r
}

/// The registry lists every transform exactly once: it has `REGISTRY_SIZE`
/// entries, each transform stands at its own position, and each position
/// holds the transform of that position.
pub proof fn law_registry_lists_each_transform_once()
    ensures
        registry_view().len() == REGISTRY_SIZE,
        forall|t: Transform| 0 <= #[trigger] t.position() < REGISTRY_SIZE && registry_view()[t.position()] == t,
        forall|i: int| 0 <= i < REGISTRY_SIZE ==> (#[trigger] registry_view()[i]).position() == i,
        forall|t: Transform| #[trigger] registry_view().contains(t),
{
    assert forall|t: Transform| #[trigger] registry_view().contains(t) by {
        assert(registry_view()[t.position()] == t);
    }
}

/// Two transforms of the same name are the same transform.
pub proof fn law_names_are_distinct(a: Transform, b: Transform)
    requires
        a.name_view() == b.name_view(),
    ensures
        a == b,
{
    reveal_names();
    assert(a.name_view().len() == b.name_view().len());
    assert(a.name_view()[0] == b.name_view()[0]);
    assert(a.name_view()[1] == b.name_view()[1]);
    assert(a.name_view()[2] == b.name_view()[2]);
}

/// No transform's name is empty or holds a hyphen, so the first hyphen of a
/// key ends the transform's name.
pub proof fn law_names_hold_no_hyphen(t: Transform)
    ensures
        t.name_view().len() >= 1,
        forall|i: int| 0 <= i < t.name_view().len() ==> t.name_view()[i] != '-',
{
    reveal_names();
}

/// What each name of the registry is, character by character.
proof fn reveal_names()
    ensures
        "oceanic"@ == seq!['o', 'c', 'e', 'a', 'n', 'i', 'c'],
        "islands"@ == seq!['i', 's', 'l', 'a', 'n', 'd', 's'],
        "marine"@ == seq!['m', 'a', 'r', 'i', 'n', 'e'],
        "seagreen"@ == seq!['s', 'e', 'a', 'g', 'r', 'e', 'e', 'n'],
        "flagblue"@ == seq!['f', 'l', 'a', 'g', 'b', 'l', 'u', 'e'],
        "liquid"@ == seq!['l', 'i', 'q', 'u', 'i', 'd'],
        "diamante"@ == seq!['d', 'i', 'a', 'm', 'a', 'n', 't', 'e'],
        "radio"@ == seq!['r', 'a', 'd', 'i', 'o'],
        "twenties"@ == seq!['t', 'w', 'e', 'n', 't', 'i', 'e', 's'],
        "rosetint"@ == seq!['r', 'o', 's', 'e', 't', 'i', 'n', 't'],
        "mauve"@ == seq!['m', 'a', 'u', 'v', 'e'],
        "bluechrome"@ == seq!['b', 'l', 'u', 'e', 'c', 'h', 'r', 'o', 'm', 'e'],
        "vintage"@ == seq!['v', 'i', 'n', 't', 'a', 'g', 'e'],
        "perfume"@ == seq!['p', 'e', 'r', 'f', 'u', 'm', 'e'],
        "serenity"@ == seq!['s', 'e', 'r', 'e', 'n', 'i', 't', 'y'],
{
    reveal_strlit("oceanic");
    reveal_strlit("islands");
    reveal_strlit("marine");
    reveal_strlit("seagreen");
    reveal_strlit("flagblue");
    reveal_strlit("liquid");
    reveal_strlit("diamante");
    reveal_strlit("radio");
    reveal_strlit("twenties");
    reveal_strlit("rosetint");
    reveal_strlit("mauve");
    reveal_strlit("bluechrome");
    reveal_strlit("vintage");
    reveal_strlit("perfume");
    reveal_strlit("serenity");
    assert("oceanic"@ =~= seq!['o', 'c', 'e', 'a', 'n', 'i', 'c']);
    assert("islands"@ =~= seq!['i', 's', 'l', 'a', 'n', 'd', 's']);
    assert("marine"@ =~= seq!['m', 'a', 'r', 'i', 'n', 'e']);
    assert("seagreen"@ =~= seq!['s', 'e', 'a', 'g', 'r', 'e', 'e', 'n']);
    assert("flagblue"@ =~= seq!['f', 'l', 'a', 'g', 'b', 'l', 'u', 'e']);
    assert("liquid"@ =~= seq!['l', 'i', 'q', 'u', 'i', 'd']);
    assert("diamante"@ =~= seq!['d', 'i', 'a', 'm', 'a', 'n', 't', 'e']);
    assert("radio"@ =~= seq!['r', 'a', 'd', 'i', 'o']);
    assert("twenties"@ =~= seq!['t', 'w', 'e', 'n', 't', 'i', 'e', 's']);
    assert("rosetint"@ =~= seq!['r', 'o', 's', 'e', 't', 'i', 'n', 't']);
    assert("mauve"@ =~= seq!['m', 'a', 'u', 'v', 'e']);
    assert("bluechrome"@ =~= seq!['b', 'l', 'u', 'e', 'c', 'h', 'r', 'o', 'm', 'e']);
    assert("vintage"@ =~= seq!['v', 'i', 'n', 't', 'a', 'g', 'e']);
    assert("perfume"@ =~= seq!['p', 'e', 'r', 'f', 'u', 'm', 'e']);
    assert("serenity"@ =~= seq!['s', 'e', 'r', 'e', 'n', 'i', 't', 'y']);
}

/// The generator that `rand::thread_rng` hands out.
#[verifier::external_type_specification]
#[verifier::external_body]
pub struct ExThreadRng(rand::rngs::ThreadRng);

/// Calls `rand::thread_rng`, which returns a handle to the calling thread's
/// generator, seeded by the system. Trusted: nothing is claimed of it.
#[verifier::external_body]
fn thread_rng() -> (rng: rand::rngs::ThreadRng) {
    rand::thread_rng()
}

/// Calls `rand::seq::SliceRandom::choose` on the candidates. Trusted: it
/// returns `None` exactly for an empty slice, and otherwise one of the
/// slice's elements. Which one depends on the generator: every call may
/// answer differently, each element being as likely as any other.
#[verifier::external_body]
fn choose_one(candidates: &[Transform], rng: &mut rand::rngs::ThreadRng) -> (r: Option<Transform>)
    ensures
        r is None <==> candidates@.len() == 0,
        r matches Some(t) ==> candidates@.contains(t),
{
    candidates.choose(rng).copied()
}

/// Draws one of the candidates at random, each with the same chance; `None`
/// exactly where there is none to draw from.
pub fn draw(candidates: &[Transform]) -> (r: Option<Transform>)
    ensures
        r is None <==> candidates@.len() == 0,
        r matches Some(t) ==> candidates@.contains(t),
{
    let mut rng = thread_rng();
    choose_one(candidates, &mut rng)
}

/// Draws one transform of the registry at random, each with the same chance.
pub fn pick_transform() -> (t: Transform)
    ensures
        registry_view().contains(t),
{
    let catalog = registry();
    match draw(catalog.as_slice()) {
        Some(t) => t,
        None => vstd::pervasive::unreached(),
    }
}

} // verus!
