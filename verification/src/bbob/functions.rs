//! The benchmark functions of the suite, with their indices, names and
//! reference minima.

use vstd::prelude::*;
use crate::scalar::Scalar;

verus! {

/// One of the 24 noiseless benchmark functions, numbered from 1.
#[derive(Clone, Copy, Debug, PartialEq, Eq, Structural)]
pub enum BBOBFunctionType {
    /// Index: 1.
    Sphere,
    /// Index: 2.
    SeparableEllipsoidal,
    /// Index: 3.
    Rastrigin,
    /// Index: 4.
    BucheRastrigin,
    /// Index: 5.
    LinearSlope,
    /// Index: 6.
    AttractiveSector,
    /// Index: 7.
    StepEllipsoidal,
    /// Index: 8.
    RosenbrockFunction,
    /// Index: 9.
    RosenbrockFunctionRotated,
    /// Index: 10.
    Ellipsoidal,
    /// Index: 11.
    Discus,
    /// Index: 12.
    BentCigar,
    /// Index: 13.
    SharpRidge,
    /// Index: 14.
    DifferentPowers,
    /// Index: 15.
    RastriginMultiModal,
    /// Index: 16.
    Weierstrass,
    /// Index: 17.
    SchafferF7,
    /// Index: 18.
    SchafferF7IllConditioned,
    /// Index: 19.
    CompositeGriewankRosenbrockF8F2,
    /// Index: 20.
    Schwefel,
    /// Index: 21.
    GallagherGaussian101MePeaks,
    /// Index: 22.
    GallagherGaussian21HiPeaks,
    /// Index: 23.
    Katsuura,
    /// Index: 24.
    LunacekBiRastrigin,
}

impl BBOBFunctionType {
    /// The function with the given index, if the index is one of 1 to 24.
    pub open spec fn spec_from_function_index(index: usize) -> Option<Self> {
        match index {
            1 => Some(BBOBFunctionType::Sphere),
            2 => Some(BBOBFunctionType::SeparableEllipsoidal),
            3 => Some(BBOBFunctionType::Rastrigin),
            4 => Some(BBOBFunctionType::BucheRastrigin),
            5 => Some(BBOBFunctionType::LinearSlope),
            6 => Some(BBOBFunctionType::AttractiveSector),
            7 => Some(BBOBFunctionType::StepEllipsoidal),
            8 => Some(BBOBFunctionType::RosenbrockFunction),
            9 => Some(BBOBFunctionType::RosenbrockFunctionRotated),
            10 => Some(BBOBFunctionType::Ellipsoidal),
            11 => Some(BBOBFunctionType::Discus),
            12 => Some(BBOBFunctionType::BentCigar),
            13 => Some(BBOBFunctionType::SharpRidge),
            14 => Some(BBOBFunctionType::DifferentPowers),
            15 => Some(BBOBFunctionType::RastriginMultiModal),
            16 => Some(BBOBFunctionType::Weierstrass),
            17 => Some(BBOBFunctionType::SchafferF7),
            18 => Some(BBOBFunctionType::SchafferF7IllConditioned),
            19 => Some(BBOBFunctionType::CompositeGriewankRosenbrockF8F2),
            20 => Some(BBOBFunctionType::Schwefel),
            21 => Some(BBOBFunctionType::GallagherGaussian101MePeaks),
            22 => Some(BBOBFunctionType::GallagherGaussian21HiPeaks),
            23 => Some(BBOBFunctionType::Katsuura),
            24 => Some(BBOBFunctionType::LunacekBiRastrigin),
            _ => None,
        }
    }

    /// The index of the function, from 1 to 24.
    pub open spec fn spec_index(&self) -> usize {
        match self {
            BBOBFunctionType::Sphere => 1,
            BBOBFunctionType::SeparableEllipsoidal => 2,
            BBOBFunctionType::Rastrigin => 3,
            BBOBFunctionType::BucheRastrigin => 4,
            BBOBFunctionType::LinearSlope => 5,
            BBOBFunctionType::AttractiveSector => 6,
            BBOBFunctionType::StepEllipsoidal => 7,
            BBOBFunctionType::RosenbrockFunction => 8,
            BBOBFunctionType::RosenbrockFunctionRotated => 9,
            BBOBFunctionType::Ellipsoidal => 10,
            BBOBFunctionType::Discus => 11,
            BBOBFunctionType::BentCigar => 12,
            BBOBFunctionType::SharpRidge => 13,
            BBOBFunctionType::DifferentPowers => 14,
            BBOBFunctionType::RastriginMultiModal => 15,
            BBOBFunctionType::Weierstrass => 16,
            BBOBFunctionType::SchafferF7 => 17,
            BBOBFunctionType::SchafferF7IllConditioned => 18,
            BBOBFunctionType::CompositeGriewankRosenbrockF8F2 => 19,
            BBOBFunctionType::Schwefel => 20,
            BBOBFunctionType::GallagherGaussian101MePeaks => 21,
            BBOBFunctionType::GallagherGaussian21HiPeaks => 22,
            BBOBFunctionType::Katsuura => 23,
            BBOBFunctionType::LunacekBiRastrigin => 24,
        }
    }

    /// The name of the function, which is that of its variant.
    pub open spec fn spec_name(&self) -> Seq<char> {
        match self {
            BBOBFunctionType::Sphere => "Sphere"@,
            BBOBFunctionType::SeparableEllipsoidal => "SeparableEllipsoidal"@,
            BBOBFunctionType::Rastrigin => "Rastrigin"@,
            BBOBFunctionType::BucheRastrigin => "BucheRastrigin"@,
            BBOBFunctionType::LinearSlope => "LinearSlope"@,
            BBOBFunctionType::AttractiveSector => "AttractiveSector"@,
            BBOBFunctionType::StepEllipsoidal => "StepEllipsoidal"@,
            BBOBFunctionType::RosenbrockFunction => "RosenbrockFunction"@,
            BBOBFunctionType::RosenbrockFunctionRotated => "RosenbrockFunctionRotated"@,
            BBOBFunctionType::Ellipsoidal => "Ellipsoidal"@,
            BBOBFunctionType::Discus => "Discus"@,
            BBOBFunctionType::BentCigar => "BentCigar"@,
            BBOBFunctionType::SharpRidge => "SharpRidge"@,
            BBOBFunctionType::DifferentPowers => "DifferentPowers"@,
            BBOBFunctionType::RastriginMultiModal => "RastriginMultiModal"@,
            BBOBFunctionType::Weierstrass => "Weierstrass"@,
            BBOBFunctionType::SchafferF7 => "SchafferF7"@,
            BBOBFunctionType::SchafferF7IllConditioned => "SchafferF7IllConditioned"@,
            BBOBFunctionType::CompositeGriewankRosenbrockF8F2 => "CompositeGriewankRosenbrockF8F2"@,
            BBOBFunctionType::Schwefel => "Schwefel"@,
            BBOBFunctionType::GallagherGaussian101MePeaks => "GallagherGaussian101MePeaks"@,
            BBOBFunctionType::GallagherGaussian21HiPeaks => "GallagherGaussian21HiPeaks"@,
            BBOBFunctionType::Katsuura => "Katsuura"@,
            BBOBFunctionType::LunacekBiRastrigin => "LunacekBiRastrigin"@,
        }
    }

    /// The bit pattern of the known global minimum of the function in 40
    /// dimensions, instance 2023.
    pub open spec fn spec_global_minimum(&self) -> Scalar {
        match self {
            BBOBFunctionType::Sphere => Scalar { bits: 0x4035_1999_9999_999A },
            BBOBFunctionType::SeparableEllipsoidal => Scalar { bits: 0x403A_E8F5_C28F_5C29 },
            BBOBFunctionType::Rastrigin => Scalar { bits: 0x4073_7999_9999_999A },
            BBOBFunctionType::BucheRastrigin => Scalar { bits: 0x4073_7999_9999_999A },
            BBOBFunctionType::LinearSlope => Scalar { bits: 0xC048_3C28_F5C2_8F5C },
            BBOBFunctionType::AttractiveSector => Scalar { bits: 0xC056_D70A_3D70_A3D7 },
            BBOBFunctionType::StepEllipsoidal => Scalar { bits: 0x4040_3EB8_51EB_851F },
            BBOBFunctionType::RosenbrockFunction => Scalar { bits: 0x4051_E666_6666_6666 },
            BBOBFunctionType::RosenbrockFunctionRotated => Scalar { bits: 0xC076_4B33_3333_3333 },
            BBOBFunctionType::Ellipsoidal => Scalar { bits: 0x4049_83D7_0A3D_70A4 },
            BBOBFunctionType::Discus => Scalar { bits: 0xC058_2999_9999_999A },
            BBOBFunctionType::BentCigar => Scalar { bits: 0x4081_4B1E_B851_EB85 },
            BBOBFunctionType::SharpRidge => Scalar { bits: 0x4023_C28F_5C28_F5C3 },
            BBOBFunctionType::DifferentPowers => Scalar { bits: 0x4079_5785_1EB8_51EC },
            BBOBFunctionType::RastriginMultiModal => Scalar { bits: 0x4050_1000_0000_0000 },
            BBOBFunctionType::Weierstrass => Scalar { bits: 0xC045_A3D7_0A3D_70A4 },
            BBOBFunctionType::SchafferF7 => Scalar { bits: 0x406C_7051_EB85_1EB8 },
            BBOBFunctionType::SchafferF7IllConditioned => Scalar { bits: 0x406C_7051_EB85_1EB8 },
            BBOBFunctionType::CompositeGriewankRosenbrockF8F2 => Scalar { bits: 0x4052_43D7_0A3D_70A4 },
            BBOBFunctionType::Schwefel => Scalar { bits: 0xC05E_F3D7_0A3D_70A4 },
            BBOBFunctionType::GallagherGaussian101MePeaks => Scalar { bits: 0xC046_35C2_8F5C_28F6 },
            BBOBFunctionType::GallagherGaussian21HiPeaks => Scalar { bits: 0x406B_C333_3333_3333 },
            BBOBFunctionType::Katsuura => Scalar { bits: 0xC08F_4000_0000_0000 },
            BBOBFunctionType::LunacekBiRastrigin => Scalar { bits: 0xBFF5_47AE_147A_E148 },
        }
    }

    /// Looks a function up by its index. Only 1 to 24 name a function.
    pub fn from_function_index(index: usize) -> (r: Option<Self>)
        ensures
            r == Self::spec_from_function_index(index),
            r is Some <==> 1 <= index <= 24,
            r is Some ==> r.unwrap().spec_index() == index,
    {
        match index {
            1 => Some(BBOBFunctionType::Sphere),
            2 => Some(BBOBFunctionType::SeparableEllipsoidal),
            3 => Some(BBOBFunctionType::Rastrigin),
            4 => Some(BBOBFunctionType::BucheRastrigin),
            5 => Some(BBOBFunctionType::LinearSlope),
            6 => Some(BBOBFunctionType::AttractiveSector),
            7 => Some(BBOBFunctionType::StepEllipsoidal),
            8 => Some(BBOBFunctionType::RosenbrockFunction),
            9 => Some(BBOBFunctionType::RosenbrockFunctionRotated),
            10 => Some(BBOBFunctionType::Ellipsoidal),
            11 => Some(BBOBFunctionType::Discus),
            12 => Some(BBOBFunctionType::BentCigar),
            13 => Some(BBOBFunctionType::SharpRidge),
            14 => Some(BBOBFunctionType::DifferentPowers),
            15 => Some(BBOBFunctionType::RastriginMultiModal),
            16 => Some(BBOBFunctionType::Weierstrass),
            17 => Some(BBOBFunctionType::SchafferF7),
            18 => Some(BBOBFunctionType::SchafferF7IllConditioned),
            19 => Some(BBOBFunctionType::CompositeGriewankRosenbrockF8F2),
            20 => Some(BBOBFunctionType::Schwefel),
            21 => Some(BBOBFunctionType::GallagherGaussian101MePeaks),
            22 => Some(BBOBFunctionType::GallagherGaussian21HiPeaks),
            23 => Some(BBOBFunctionType::Katsuura),
            24 => Some(BBOBFunctionType::LunacekBiRastrigin),
            _ => None,
        }
    }

    /// The index of the function in the suite.
    #[verifier::when_used_as_spec(spec_index)]
    pub fn index(&self) -> (r: usize)
        ensures
            r == self.spec_index(),
            1 <= r <= 24,
    {
        match self {
            BBOBFunctionType::Sphere => 1,
            BBOBFunctionType::SeparableEllipsoidal => 2,
            BBOBFunctionType::Rastrigin => 3,
            BBOBFunctionType::BucheRastrigin => 4,
            BBOBFunctionType::LinearSlope => 5,
            BBOBFunctionType::AttractiveSector => 6,
            BBOBFunctionType::StepEllipsoidal => 7,
            BBOBFunctionType::RosenbrockFunction => 8,
            BBOBFunctionType::RosenbrockFunctionRotated => 9,
            BBOBFunctionType::Ellipsoidal => 10,
            BBOBFunctionType::Discus => 11,
            BBOBFunctionType::BentCigar => 12,
            BBOBFunctionType::SharpRidge => 13,
            BBOBFunctionType::DifferentPowers => 14,
            BBOBFunctionType::RastriginMultiModal => 15,
            BBOBFunctionType::Weierstrass => 16,
            BBOBFunctionType::SchafferF7 => 17,
            BBOBFunctionType::SchafferF7IllConditioned => 18,
            BBOBFunctionType::CompositeGriewankRosenbrockF8F2 => 19,
            BBOBFunctionType::Schwefel => 20,
            BBOBFunctionType::GallagherGaussian101MePeaks => 21,
            BBOBFunctionType::GallagherGaussian21HiPeaks => 22,
            BBOBFunctionType::Katsuura => 23,
            BBOBFunctionType::LunacekBiRastrigin => 24,
        }
    }

    /// The name of the function.
    pub fn name(&self) -> (r: String)
        ensures
            r@ == self.spec_name(),
    {
        let text: &str = match self {
            BBOBFunctionType::Sphere => "Sphere",
            BBOBFunctionType::SeparableEllipsoidal => "SeparableEllipsoidal",
            BBOBFunctionType::Rastrigin => "Rastrigin",
            BBOBFunctionType::BucheRastrigin => "BucheRastrigin",
            BBOBFunctionType::LinearSlope => "LinearSlope",
            BBOBFunctionType::AttractiveSector => "AttractiveSector",
            BBOBFunctionType::StepEllipsoidal => "StepEllipsoidal",
            BBOBFunctionType::RosenbrockFunction => "RosenbrockFunction",
            BBOBFunctionType::RosenbrockFunctionRotated => "RosenbrockFunctionRotated",
            BBOBFunctionType::Ellipsoidal => "Ellipsoidal",
            BBOBFunctionType::Discus => "Discus",
            BBOBFunctionType::BentCigar => "BentCigar",
            BBOBFunctionType::SharpRidge => "SharpRidge",
            BBOBFunctionType::DifferentPowers => "DifferentPowers",
            BBOBFunctionType::RastriginMultiModal => "RastriginMultiModal",
            BBOBFunctionType::Weierstrass => "Weierstrass",
            BBOBFunctionType::SchafferF7 => "SchafferF7",
            BBOBFunctionType::SchafferF7IllConditioned => "SchafferF7IllConditioned",
            BBOBFunctionType::CompositeGriewankRosenbrockF8F2 => "CompositeGriewankRosenbrockF8F2",
            BBOBFunctionType::Schwefel => "Schwefel",
            BBOBFunctionType::GallagherGaussian101MePeaks => "GallagherGaussian101MePeaks",
            BBOBFunctionType::GallagherGaussian21HiPeaks => "GallagherGaussian21HiPeaks",
            BBOBFunctionType::Katsuura => "Katsuura",
            BBOBFunctionType::LunacekBiRastrigin => "LunacekBiRastrigin",
        };
        text.to_owned()
    }

    /// The known global minimum of the function in 40 dimensions, instance
    /// 2023. It serves reports only; no search decision reads it.
    pub fn global_minimum(&self) -> (r: Scalar)
        ensures
            r == self.spec_global_minimum(),
            !r.is_nan(),
    {
        match self {
            // 21.1000
            BBOBFunctionType::Sphere => Scalar { bits: 0x4035_1999_9999_999A },
            // 26.9100
            BBOBFunctionType::SeparableEllipsoidal => Scalar { bits: 0x403A_E8F5_C28F_5C29 },
            // 311.6000
            BBOBFunctionType::Rastrigin => Scalar { bits: 0x4073_7999_9999_999A },
            // 311.6000
            BBOBFunctionType::BucheRastrigin => Scalar { bits: 0x4073_7999_9999_999A },
            // -48.4700
            BBOBFunctionType::LinearSlope => Scalar { bits: 0xC048_3C28_F5C2_8F5C },
            // -91.3600
            BBOBFunctionType::AttractiveSector => Scalar { bits: 0xC056_D70A_3D70_A3D7 },
            // 32.4900
            BBOBFunctionType::StepEllipsoidal => Scalar { bits: 0x4040_3EB8_51EB_851F },
            // 71.6000
            BBOBFunctionType::RosenbrockFunction => Scalar { bits: 0x4051_E666_6666_6666 },
            // -356.7000
            BBOBFunctionType::RosenbrockFunctionRotated => Scalar { bits: 0xC076_4B33_3333_3333 },
            // 51.0300
            BBOBFunctionType::Ellipsoidal => Scalar { bits: 0x4049_83D7_0A3D_70A4 },
            // -96.6500
            BBOBFunctionType::Discus => Scalar { bits: 0xC058_2999_9999_999A },
            // 553.3900
            BBOBFunctionType::BentCigar => Scalar { bits: 0x4081_4B1E_B851_EB85 },
            // 9.8800
            BBOBFunctionType::SharpRidge => Scalar { bits: 0x4023_C28F_5C28_F5C3 },
            // 405.4700
            BBOBFunctionType::DifferentPowers => Scalar { bits: 0x4079_5785_1EB8_51EC },
            // 64.2500
            BBOBFunctionType::RastriginMultiModal => Scalar { bits: 0x4050_1000_0000_0000 },
            // -43.2800
            BBOBFunctionType::Weierstrass => Scalar { bits: 0xC045_A3D7_0A3D_70A4 },
            // 227.5100
            BBOBFunctionType::SchafferF7 => Scalar { bits: 0x406C_7051_EB85_1EB8 },
            // 227.5100
            BBOBFunctionType::SchafferF7IllConditioned => Scalar { bits: 0x406C_7051_EB85_1EB8 },
            // 73.0600
            BBOBFunctionType::CompositeGriewankRosenbrockF8F2 => Scalar { bits: 0x4052_43D7_0A3D_70A4 },
            // -123.8100
            BBOBFunctionType::Schwefel => Scalar { bits: 0xC05E_F3D7_0A3D_70A4 },
            // -44.4200
            BBOBFunctionType::GallagherGaussian101MePeaks => Scalar { bits: 0xC046_35C2_8F5C_28F6 },
            // 222.1000
            BBOBFunctionType::GallagherGaussian21HiPeaks => Scalar { bits: 0x406B_C333_3333_3333 },
            // -1000.0000
            BBOBFunctionType::Katsuura => Scalar { bits: 0xC08F_4000_0000_0000 },
            // -1.3300
            BBOBFunctionType::LunacekBiRastrigin => Scalar { bits: 0xBFF5_47AE_147A_E148 },
        }
    }

}

/// All 24 functions, in the order of their indices.
pub fn all_bbob_functions() -> (r: Vec<BBOBFunctionType>)
    ensures
        r.len() == 24,
        forall|i: int| 0 <= i < 24 ==> (#[trigger] r[i]).spec_index() == i + 1,
{
    let mut all: Vec<BBOBFunctionType> = Vec::with_capacity(24);
    let mut index: usize = 1;
    while index <= 24
        invariant
            1 <= index <= 25,
            all.len() == index - 1,
            forall|i: int| 0 <= i < all.len() ==> (#[trigger] all[i]).spec_index() == i + 1,
        decreases 25 - index,
    {
        match BBOBFunctionType::from_function_index(index) {
            Some(function) => all.push(function),
            None => {},
        }
        index += 1;
    }
    all
}

/// Looking up the index of a function gives the function back.
pub proof fn lemma_index_round_trip(function: BBOBFunctionType)
    ensures
        BBOBFunctionType::spec_from_function_index(function.spec_index()) == Some(function),
{
}

/// Two functions with the same index are the same function.
pub proof fn lemma_index_injective(first: BBOBFunctionType, second: BBOBFunctionType)
    requires
        first.spec_index() == second.spec_index(),
    ensures
        first == second,
{
}

} // verus!
