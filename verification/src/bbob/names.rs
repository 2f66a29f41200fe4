//! The benchmark functions of the suite by name.

use vstd::prelude::*;

verus! {

/// One of the 24 noiseless benchmark functions, numbered from 1.
#[derive(Clone, Copy, Debug, PartialEq, Eq, Structural)]
pub enum BBOBFunctionName {
    /// Index: 1.
    Sphere,
    /// Index: 2.
    SeparableEllipsoidal,
    /// Index: 3.
    Rastrigin,
    /// Index: 4.
    BucheRastrigin,
    /// Index: 5.
    LinearSlope,
    /// Index: 6.
    AttractiveSector,
    /// Index: 7.
    StepEllipsoidal,
    /// Index: 8.
    RosenbrockFunction,
    /// Index: 9.
    RosenbrockFunctionRotated,
    /// Index: 10.
    Ellipsoidal,
    /// Index: 11.
    Discus,
    /// Index: 12.
    BentCigar,
    /// Index: 13.
    SharpRidge,
    /// Index: 14.
    DifferentPowers,
    /// Index: 15.
    RastriginMultiModal,
    /// Index: 16.
    Weierstrass,
    /// Index: 17.
    SchafferF7,
    /// Index: 18.
    SchafferF7IllConditioned,
    /// Index: 19.
    CompositeGriewankRosenbrockF8F2,
    /// Index: 20.
    Schwefel,
    /// Index: 21.
    GallagherGaussian101MePeaks,
    /// Index: 22.
    GallagherGaussian21HiPeaks,
    /// Index: 23.
    Katsuura,
    /// Index: 24.
    LunacekBiRastrigin,
}

impl BBOBFunctionName {
    /// The function with the given index, if the index is one of 1 to 24.
    pub open spec fn spec_from_function_index(index: usize) -> Option<Self> {
        match index {
            1 => Some(BBOBFunctionName::Sphere),
            2 => Some(BBOBFunctionName::SeparableEllipsoidal),
            3 => Some(BBOBFunctionName::Rastrigin),
            4 => Some(BBOBFunctionName::BucheRastrigin),
            5 => Some(BBOBFunctionName::LinearSlope),
            6 => Some(BBOBFunctionName::AttractiveSector),
            7 => Some(BBOBFunctionName::StepEllipsoidal),
            8 => Some(BBOBFunctionName::RosenbrockFunction),
            9 => Some(BBOBFunctionName::RosenbrockFunctionRotated),
            10 => Some(BBOBFunctionName::Ellipsoidal),
            11 => Some(BBOBFunctionName::Discus),
            12 => Some(BBOBFunctionName::BentCigar),
            13 => Some(BBOBFunctionName::SharpRidge),
            14 => Some(BBOBFunctionName::DifferentPowers),
            15 => Some(BBOBFunctionName::RastriginMultiModal),
            16 => Some(BBOBFunctionName::Weierstrass),
            17 => Some(BBOBFunctionName::SchafferF7),
            18 => Some(BBOBFunctionName::SchafferF7IllConditioned),
            19 => Some(BBOBFunctionName::CompositeGriewankRosenbrockF8F2),
            20 => Some(BBOBFunctionName::Schwefel),
            21 => Some(BBOBFunctionName::GallagherGaussian101MePeaks),
            22 => Some(BBOBFunctionName::GallagherGaussian21HiPeaks),
            23 => Some(BBOBFunctionName::Katsuura),
            24 => Some(BBOBFunctionName::LunacekBiRastrigin),
            _ => None,
        }
    }

    /// The index of the function, from 1 to 24.
    pub open spec fn spec_to_function_index(&self) -> usize {
        match self {
            BBOBFunctionName::Sphere => 1,
            BBOBFunctionName::SeparableEllipsoidal => 2,
            BBOBFunctionName::Rastrigin => 3,
            BBOBFunctionName::BucheRastrigin => 4,
            BBOBFunctionName::LinearSlope => 5,
            BBOBFunctionName::AttractiveSector => 6,
            BBOBFunctionName::StepEllipsoidal => 7,
            BBOBFunctionName::RosenbrockFunction => 8,
            BBOBFunctionName::RosenbrockFunctionRotated => 9,
            BBOBFunctionName::Ellipsoidal => 10,
            BBOBFunctionName::Discus => 11,
            BBOBFunctionName::BentCigar => 12,
            BBOBFunctionName::SharpRidge => 13,
            BBOBFunctionName::DifferentPowers => 14,
            BBOBFunctionName::RastriginMultiModal => 15,
            BBOBFunctionName::Weierstrass => 16,
            BBOBFunctionName::SchafferF7 => 17,
            BBOBFunctionName::SchafferF7IllConditioned => 18,
            BBOBFunctionName::CompositeGriewankRosenbrockF8F2 => 19,
            BBOBFunctionName::Schwefel => 20,
            BBOBFunctionName::GallagherGaussian101MePeaks => 21,
            BBOBFunctionName::GallagherGaussian21HiPeaks => 22,
            BBOBFunctionName::Katsuura => 23,
            BBOBFunctionName::LunacekBiRastrigin => 24,
        }
    }

    /// The name of the function, which is that of its variant.
    pub open spec fn spec_to_function_name(&self) -> Seq<char> {
        match self {
            BBOBFunctionName::Sphere => "Sphere"@,
            BBOBFunctionName::SeparableEllipsoidal => "SeparableEllipsoidal"@,
            BBOBFunctionName::Rastrigin => "Rastrigin"@,
            BBOBFunctionName::BucheRastrigin => "BucheRastrigin"@,
            BBOBFunctionName::LinearSlope => "LinearSlope"@,
            BBOBFunctionName::AttractiveSector => "AttractiveSector"@,
            BBOBFunctionName::StepEllipsoidal => "StepEllipsoidal"@,
            BBOBFunctionName::RosenbrockFunction => "RosenbrockFunction"@,
            BBOBFunctionName::RosenbrockFunctionRotated => "RosenbrockFunctionRotated"@,
            BBOBFunctionName::Ellipsoidal => "Ellipsoidal"@,
            BBOBFunctionName::Discus => "Discus"@,
            BBOBFunctionName::BentCigar => "BentCigar"@,
            BBOBFunctionName::SharpRidge => "SharpRidge"@,
            BBOBFunctionName::DifferentPowers => "DifferentPowers"@,
            BBOBFunctionName::RastriginMultiModal => "RastriginMultiModal"@,
            BBOBFunctionName::Weierstrass => "Weierstrass"@,
            BBOBFunctionName::SchafferF7 => "SchafferF7"@,
            BBOBFunctionName::SchafferF7IllConditioned => "SchafferF7IllConditioned"@,
            BBOBFunctionName::CompositeGriewankRosenbrockF8F2 => "CompositeGriewankRosenbrockF8F2"@,
            BBOBFunctionName::Schwefel => "Schwefel"@,
            BBOBFunctionName::GallagherGaussian101MePeaks => "GallagherGaussian101MePeaks"@,
            BBOBFunctionName::GallagherGaussian21HiPeaks => "GallagherGaussian21HiPeaks"@,
            BBOBFunctionName::Katsuura => "Katsuura"@,
            BBOBFunctionName::LunacekBiRastrigin => "LunacekBiRastrigin"@,
        }
    }

    /// Looks a function up by its index. Only 1 to 24 name a function.
    pub fn from_function_index(index: usize) -> (r: Option<Self>)
        ensures
            r == Self::spec_from_function_index(index),
            r is Some <==> 1 <= index <= 24,
            r is Some ==> r.unwrap().spec_to_function_index() == index,
    {
        match index {
            1 => Some(BBOBFunctionName::Sphere),
            2 => Some(BBOBFunctionName::SeparableEllipsoidal),
            3 => Some(BBOBFunctionName::Rastrigin),
            4 => Some(BBOBFunctionName::BucheRastrigin),
            5 => Some(BBOBFunctionName::LinearSlope),
            6 => Some(BBOBFunctionName::AttractiveSector),
            7 => Some(BBOBFunctionName::StepEllipsoidal),
            8 => Some(BBOBFunctionName::RosenbrockFunction),
            9 => Some(BBOBFunctionName::RosenbrockFunctionRotated),
            10 => Some(BBOBFunctionName::Ellipsoidal),
            11 => Some(BBOBFunctionName::Discus),
            12 => Some(BBOBFunctionName::BentCigar),
            13 => Some(BBOBFunctionName::SharpRidge),
            14 => Some(BBOBFunctionName::DifferentPowers),
            15 => Some(BBOBFunctionName::RastriginMultiModal),
            16 => Some(BBOBFunctionName::Weierstrass),
            17 => Some(BBOBFunctionName::SchafferF7),
            18 => Some(BBOBFunctionName::SchafferF7IllConditioned),
            19 => Some(BBOBFunctionName::CompositeGriewankRosenbrockF8F2),
            20 => Some(BBOBFunctionName::Schwefel),
            21 => Some(BBOBFunctionName::GallagherGaussian101MePeaks),
            22 => Some(BBOBFunctionName::GallagherGaussian21HiPeaks),
            23 => Some(BBOBFunctionName::Katsuura),
            24 => Some(BBOBFunctionName::LunacekBiRastrigin),
            _ => None,
        }
    }

    /// The index of the function in the suite.
    #[verifier::when_used_as_spec(spec_to_function_index)]
    pub fn to_function_index(&self) -> (r: usize)
        ensures
            r == self.spec_to_function_index(),
            1 <= r <= 24,
    {
        match self {
            BBOBFunctionName::Sphere => 1,
            BBOBFunctionName::SeparableEllipsoidal => 2,
            BBOBFunctionName::Rastrigin => 3,
            BBOBFunctionName::BucheRastrigin => 4,
            BBOBFunctionName::LinearSlope => 5,
            BBOBFunctionName::AttractiveSector => 6,
            BBOBFunctionName::StepEllipsoidal => 7,
            BBOBFunctionName::RosenbrockFunction => 8,
            BBOBFunctionName::RosenbrockFunctionRotated => 9,
            BBOBFunctionName::Ellipsoidal => 10,
            BBOBFunctionName::Discus => 11,
            BBOBFunctionName::BentCigar => 12,
            BBOBFunctionName::SharpRidge => 13,
            BBOBFunctionName::DifferentPowers => 14,
            BBOBFunctionName::RastriginMultiModal => 15,
            BBOBFunctionName::Weierstrass => 16,
            BBOBFunctionName::SchafferF7 => 17,
            BBOBFunctionName::SchafferF7IllConditioned => 18,
            BBOBFunctionName::CompositeGriewankRosenbrockF8F2 => 19,
            BBOBFunctionName::Schwefel => 20,
            BBOBFunctionName::GallagherGaussian101MePeaks => 21,
            BBOBFunctionName::GallagherGaussian21HiPeaks => 22,
            BBOBFunctionName::Katsuura => 23,
            BBOBFunctionName::LunacekBiRastrigin => 24,
        }
    }

    /// The name of the function.
    pub fn to_function_name(&self) -> (r: String)
        ensures
            r@ == self.spec_to_function_name(),
    {
        let text: &str = match self {
            BBOBFunctionName::Sphere => "Sphere",
            BBOBFunctionName::SeparableEllipsoidal => "SeparableEllipsoidal",
            BBOBFunctionName::Rastrigin => "Rastrigin",
            BBOBFunctionName::BucheRastrigin => "BucheRastrigin",
            BBOBFunctionName::LinearSlope => "LinearSlope",
            BBOBFunctionName::AttractiveSector => "AttractiveSector",
            BBOBFunctionName::StepEllipsoidal => "StepEllipsoidal",
            BBOBFunctionName::RosenbrockFunction => "RosenbrockFunction",
            BBOBFunctionName::RosenbrockFunctionRotated => "RosenbrockFunctionRotated",
            BBOBFunctionName::Ellipsoidal => "Ellipsoidal",
            BBOBFunctionName::Discus => "Discus",
            BBOBFunctionName::BentCigar => "BentCigar",
            BBOBFunctionName::SharpRidge => "SharpRidge",
            BBOBFunctionName::DifferentPowers => "DifferentPowers",
            BBOBFunctionName::RastriginMultiModal => "RastriginMultiModal",
            BBOBFunctionName::Weierstrass => "Weierstrass",
            BBOBFunctionName::SchafferF7 => "SchafferF7",
            BBOBFunctionName::SchafferF7IllConditioned => "SchafferF7IllConditioned",
            BBOBFunctionName::CompositeGriewankRosenbrockF8F2 => "CompositeGriewankRosenbrockF8F2",
            BBOBFunctionName::Schwefel => "Schwefel",
            BBOBFunctionName::GallagherGaussian101MePeaks => "GallagherGaussian101MePeaks",
            BBOBFunctionName::GallagherGaussian21HiPeaks => "GallagherGaussian21HiPeaks",
            BBOBFunctionName::Katsuura => "Katsuura",
            BBOBFunctionName::LunacekBiRastrigin => "LunacekBiRastrigin",
        };
        text.to_owned()
    }

}

/// All 24 functions, in the order of their indices.
pub fn all_bbob_function_names() -> (r: Vec<BBOBFunctionName>)
    ensures
        r.len() == 24,
        forall|i: int| 0 <= i < 24 ==> (#[trigger] r[i]).spec_to_function_index() == i + 1,
{
    let mut all: Vec<BBOBFunctionName> = Vec::with_capacity(24);
    let mut index: usize = 1;
    while index <= 24
        invariant
            1 <= index <= 25,
            all.len() == index - 1,
            forall|i: int| 0 <= i < all.len() ==> (#[trigger] all[i]).spec_to_function_index() == i + 1,
        decreases 25 - index,
    {
        match BBOBFunctionName::from_function_index(index) {
            Some(function) => all.push(function),
            None => {},
        }
        index += 1;
    }
    all
}

/// Looking up the index of a function gives the function back.
pub proof fn lemma_to_function_index_round_trip(function: BBOBFunctionName)
    ensures
        BBOBFunctionName::spec_from_function_index(function.spec_to_function_index()) == Some(function),
{
}

/// Two functions with the same index are the same function.
pub proof fn lemma_to_function_index_injective(first: BBOBFunctionName, second: BBOBFunctionName)
    requires
        first.spec_to_function_index() == second.spec_to_function_index(),
    ensures
        first == second,
{
}

} // verus!
