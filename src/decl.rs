use vstd::prelude::*;

verus! {

/// What a variant of an enum carries besides its name.
#[derive(Clone, Copy, Debug, PartialEq, Eq, Structural)]
pub enum Payload {
    /// No data: `Start`.
    Unit,
    /// Positional fields: `Data(bool)`.
    Tuple,
    /// Named fields: `Data { flag: bool }`.
    Named,
}

/// One variant of an enum, as declared.
#[derive(Debug)]
pub struct Variant {
    pub name: String,
    pub payload: Payload,
}

/// The kind of type a declaration introduces.
#[derive(Debug)]
pub enum Shape {
    /// An enum, with its variants in declaration order.
    Enum(Vec<Variant>),
    /// A record type with fields.
    Struct,
    /// An untagged union.
    Union,
}

/// A type declaration that a helper is derived for.
#[derive(Debug)]
pub struct Declaration {
    pub name: String,
    pub shape: Shape,
}

/// Why no helper can be derived for a declaration.
#[derive(Clone, Copy, Debug, PartialEq, Eq, Structural)]
pub enum GenError {
    /// The declaration is not an enum.
    NotAnEnum,
    /// The variant at this position (the first such) carries data.
    VariantHasData(usize),
}

/// The position of the first variant that carries data, if any.
pub open spec fn first_data(vs: Seq<Variant>) -> Option<nat>
    decreases vs.len(),
{
    if vs.len() == 0 {
        None
    } else {
        match first_data(vs.drop_last()) {
            Some(i) => Some(i),
            None => if vs.last().payload == Payload::Unit {
                None
            } else {
                Some((vs.len() - 1) as nat)
            },
        }
    }
}

/// The names of the variants, in declaration order.
pub open spec fn names_of(vs: Seq<Variant>) -> Seq<Seq<char>> {
    vs.map_values(|v: Variant| v.name@)
}

/// The variant names of a declaration that helpers can be derived for,
/// or the reason they cannot.
pub open spec fn variant_names_spec(d: Declaration) -> Result<Seq<Seq<char>>, GenError> {
    match d.shape {
        Shape::Enum(vs) => match first_data(vs@) {
            Some(i) => Err(GenError::VariantHasData(i as usize)),
            None => Ok(names_of(vs@)),
        },
        _ => Err(GenError::NotAnEnum),
    }
}

/// The number of variants of a declaration that helpers can be derived for.
pub open spec fn variant_count_spec(d: Declaration) -> Result<nat, GenError> {
    match variant_names_spec(d) {
        Ok(ns) => Ok(ns.len()),
        Err(e) => Err(e),
    }
}

pub(crate) proof fn lemma_first_data_none(vs: Seq<Variant>)
    ensures
        first_data(vs) is None <==> forall|j: int|
            0 <= j < vs.len() ==> #[trigger] vs[j].payload == Payload::Unit,
    decreases vs.len(),
{
    if vs.len() > 0 {
        lemma_first_data_none(vs.drop_last());
        assert(forall|j: int| 0 <= j < vs.len() - 1 ==> vs.drop_last()[j] == vs[j]);
    }
}

proof fn lemma_first_data_prefix(vs: Seq<Variant>, k: int, i: nat)
    requires
        0 <= k <= vs.len(),
        first_data(vs.take(k)) == Some(i),
    ensures
        first_data(vs) == Some(i),
    decreases vs.len(),
{
    if k < vs.len() {
        assert(vs.drop_last().take(k) =~= vs.take(k));
        lemma_first_data_prefix(vs.drop_last(), k, i);
    } else {
        assert(vs.take(k) =~= vs);
    }
}

/// Whether every variant of `vs` is free of data.
pub open spec fn all_unit(vs: Seq<Variant>) -> bool {
    forall|j: int| 0 <= j < vs.len() ==> #[trigger] vs[j].payload == Payload::Unit
}

/// Reading a declaration: an error unless it is an enum whose variants all
/// carry no data.
pub proof fn lemma_variant_names_ok(d: Declaration)
    ensures
        variant_names_spec(d) is Ok <==> (d.shape is Enum && all_unit(d.shape->Enum_0@)),
{
    if let Shape::Enum(vs) = d.shape {
        lemma_first_data_none(vs@);
    }
}

/// The names of the variants of `d`, in declaration order; an error where
/// `d` is not an enum or one of its variants carries data.
pub fn variant_names(d: &Declaration) -> (r: Result<Vec<String>, GenError>)
    ensures
        match (r, variant_names_spec(*d)) {
            (Ok(ns), Ok(spec_ns)) => ns@.map_values(|s: String| s@) == spec_ns,
            (Err(e), Err(spec_e)) => e == spec_e,
            _ => false,
        },
{
    match &d.shape {
        Shape::Enum(vs) => {
            let mut names: Vec<String> = Vec::new();
            let mut i: usize = 0;
            while i < vs.len()
                invariant
                    d.shape == Shape::Enum(*vs),
                    i <= vs@.len(),
                    first_data(vs@.take(i as int)) is None,
                    names@.len() == i,
                    forall|j: int| 0 <= j < i ==> #[trigger] names@[j]@ == vs@[j].name@,
                decreases vs@.len() - i,
            {
                assert(vs@.take(i as int + 1).drop_last() =~= vs@.take(i as int));
                if !vs[i].payload.is_unit() {
                    assert(first_data(vs@.take(i as int + 1)) == Some(i as nat));
                    proof {
                        lemma_first_data_prefix(vs@, i as int + 1, i as nat);
                    }
                    return Err(GenError::VariantHasData(i));
                }
                names.push(vs[i].name.clone());
                i = i + 1;
            }
            assert(vs@.take(i as int) =~= vs@);
            assert(names@.map_values(|s: String| s@) =~= names_of(vs@));
            Ok(names)
        },
        _ => Err(GenError::NotAnEnum),
    }
}

/// The number of variants of `d`; an error exactly where `variant_names`
/// gives one.
pub fn variant_count(d: &Declaration) -> (r: Result<usize, GenError>)
    ensures
        match (r, variant_count_spec(*d)) {
            (Ok(n), Ok(spec_n)) => n == spec_n,
            (Err(e), Err(spec_e)) => e == spec_e,
            _ => false,
        },
{
    match variant_names(d) {
        Ok(ns) => Ok(ns.len()),
        Err(e) => Err(e),
    }
}

impl Payload {
    /// Whether a variant of this shape carries no data.
    pub fn is_unit(&self) -> (r: bool)
        ensures
            r == (*self == Payload::Unit),
    {
        match self {
            Payload::Unit => true,
            _ => false,
        }
    }
}

} // verus!
