use vstd::prelude::*;

use crate::error::Error;
use crate::store::AnswerStore;
use crate::stress::Stress;

verus! {

// ---------------------------------------------------------------------------
// Raw sub-scale sums
//
// Each of the 17 named sub-scales is a fixed formula over the unadjusted
// answers: either a plain windowed sum, or a constant minus a windowed sum
// for the sub-scales whose scale direction is inverted. Positions are
// 0-based; position `i` holds the answer to question `i + 1`.
// ---------------------------------------------------------------------------

pub open spec fn raw_mental_work_stress_volume(s: Seq<u8>) -> int {
    15 - (s[0] as int + s[1] as int + s[2] as int)
}

pub open spec fn raw_mental_work_stress_quality(s: Seq<u8>) -> int {
    15 - (s[3] as int + s[4] as int + s[5] as int)
}

pub open spec fn raw_aware_physical_stress(s: Seq<u8>) -> int {
    5 - s[6] as int
}

pub open spec fn raw_work_people_stress(s: Seq<u8>) -> int {
    10 - (s[11] as int + s[12] as int) + s[13] as int
}

pub open spec fn raw_work_env_stress(s: Seq<u8>) -> int {
    5 - s[14] as int
}

pub open spec fn raw_work_control(s: Seq<u8>) -> int {
    15 - (s[7] as int + s[8] as int + s[9] as int)
}

pub open spec fn raw_skill_apply(s: Seq<u8>) -> int {
    s[10] as int
}

pub open spec fn raw_work_apply(s: Seq<u8>) -> int {
    5 - s[15] as int
}

pub open spec fn raw_decent_work(s: Seq<u8>) -> int {
    5 - s[16] as int
}

pub open spec fn raw_vitality(s: Seq<u8>) -> int {
    s[17] as int + s[18] as int + s[19] as int
}

pub open spec fn raw_iraira(s: Seq<u8>) -> int {
    s[20] as int + s[21] as int + s[22] as int
}

pub open spec fn raw_tired(s: Seq<u8>) -> int {
    s[23] as int + s[24] as int + s[25] as int
}

pub open spec fn raw_anxious(s: Seq<u8>) -> int {
    s[26] as int + s[27] as int + s[28] as int
}

pub open spec fn raw_depressed(s: Seq<u8>) -> int {
    s[29] as int + s[30] as int + s[31] as int + s[32] as int + s[33] as int + s[34] as int
}

pub open spec fn raw_physical_complaint(s: Seq<u8>) -> int {
    s[35] as int + s[36] as int + s[37] as int + s[38] as int + s[39] as int + s[40] as int + s[41] as int
        + s[42] as int + s[43] as int + s[44] as int + s[45] as int
}

pub open spec fn raw_boss_support(s: Seq<u8>) -> int {
    15 - (s[46] as int + s[49] as int + s[52] as int)
}

pub open spec fn raw_colleague_support(s: Seq<u8>) -> int {
    15 - (s[47] as int + s[50] as int + s[53] as int)
}

pub open spec fn raw_family_support(s: Seq<u8>) -> int {
    15 - (s[48] as int + s[51] as int + s[54] as int)
}

// ---------------------------------------------------------------------------
// Conversion tables
//
// Each sub-scale has its own fixed table of disjoint inclusive ranges
// mapping the raw sum to a 1..=5 evaluation point, `None` outside the
// covered domain. The direction (whether a low raw sum maps to a high or a
// low evaluation point) is intrinsic to each table and is transcribed
// verbatim from the regulatory standard, not derived from a rule.
// ---------------------------------------------------------------------------

pub open spec fn eval_mental_work_stress_volume(raw: int) -> Option<u8> {
    if 3 <= raw <= 5 {
        Some(5u8)
    } else if 6 <= raw <= 7 {
        Some(4u8)
    } else if 8 <= raw <= 9 {
        Some(3u8)
    } else if 10 <= raw <= 11 {
        Some(2u8)
    } else if raw == 12 {
        Some(1u8)
    } else {
        None
    }
}

pub open spec fn eval_mental_work_stress_quality(raw: int) -> Option<u8> {
    if 3 <= raw <= 5 {
        Some(5u8)
    } else if 6 <= raw <= 7 {
        Some(4u8)
    } else if 8 <= raw <= 9 {
        Some(3u8)
    } else if 10 <= raw <= 11 {
        Some(2u8)
    } else if raw == 12 {
        Some(1u8)
    } else {
        None
    }
}

pub open spec fn eval_aware_physical_stress(raw: int) -> Option<u8> {
    if raw == 1 {
        Some(4u8)
    } else if raw == 2 {
        Some(3u8)
    } else if raw == 3 {
        Some(2u8)
    } else if raw == 4 {
        Some(1u8)
    } else {
        None
    }
}

pub open spec fn eval_work_people_stress(raw: int) -> Option<u8> {
    if raw == 3 {
        Some(5u8)
    } else if 4 <= raw <= 5 {
        Some(4u8)
    } else if 6 <= raw <= 7 {
        Some(3u8)
    } else if 8 <= raw <= 9 {
        Some(2u8)
    } else if 10 <= raw <= 12 {
        Some(1u8)
    } else {
        None
    }
}

pub open spec fn eval_work_env_stress(raw: int) -> Option<u8> {
    if raw == 1 {
        Some(4u8)
    } else if raw == 2 {
        Some(3u8)
    } else if raw == 3 {
        Some(2u8)
    } else if raw == 4 {
        Some(1u8)
    } else {
        None
    }
}

pub open spec fn eval_work_control(raw: int) -> Option<u8> {
    if 3 <= raw <= 4 {
        Some(1u8)
    } else if 5 <= raw <= 6 {
        Some(2u8)
    } else if 7 <= raw <= 8 {
        Some(3u8)
    } else if 9 <= raw <= 10 {
        Some(4u8)
    } else if 11 <= raw <= 12 {
        Some(5u8)
    } else {
        None
    }
}

pub open spec fn eval_skill_apply(raw: int) -> Option<u8> {
    if raw == 1 {
        Some(1u8)
    } else if raw == 2 {
        Some(2u8)
    } else if raw == 3 {
        Some(3u8)
    } else if raw == 4 {
        Some(4u8)
    } else {
        None
    }
}

pub open spec fn eval_work_apply(raw: int) -> Option<u8> {
    if raw == 1 {
        Some(1u8)
    } else if raw == 2 {
        Some(2u8)
    } else if raw == 3 {
        Some(3u8)
    } else if raw == 4 {
        Some(5u8)
    } else {
        None
    }
}

pub open spec fn eval_decent_work(raw: int) -> Option<u8> {
    if raw == 1 {
        Some(1u8)
    } else if raw == 2 {
        Some(2u8)
    } else if raw == 3 {
        Some(3u8)
    } else if raw == 4 {
        Some(5u8)
    } else {
        None
    }
}

pub open spec fn eval_vitality(raw: int) -> Option<u8> {
    if raw == 3 {
        Some(1u8)
    } else if 4 <= raw <= 5 {
        Some(2u8)
    } else if 6 <= raw <= 7 {
        Some(3u8)
    } else if 8 <= raw <= 9 {
        Some(4u8)
    } else if 10 <= raw <= 12 {
        Some(5u8)
    } else {
        None
    }
}

pub open spec fn eval_iraira(raw: int) -> Option<u8> {
    if raw == 3 {
        Some(5u8)
    } else if 4 <= raw <= 5 {
        Some(4u8)
    } else if 6 <= raw <= 7 {
        Some(3u8)
    } else if 8 <= raw <= 9 {
        Some(2u8)
    } else if 10 <= raw <= 12 {
        Some(1u8)
    } else {
        None
    }
}

pub open spec fn eval_tired(raw: int) -> Option<u8> {
    if raw == 3 {
        Some(5u8)
    } else if raw == 4 {
        Some(4u8)
    } else if 5 <= raw <= 7 {
        Some(3u8)
    } else if 8 <= raw <= 10 {
        Some(2u8)
    } else if 11 <= raw <= 12 {
        Some(1u8)
    } else {
        None
    }
}

pub open spec fn eval_anxious(raw: int) -> Option<u8> {
    if raw == 3 {
        Some(5u8)
    } else if raw == 4 {
        Some(4u8)
    } else if 5 <= raw <= 7 {
        Some(3u8)
    } else if 8 <= raw <= 9 {
        Some(2u8)
    } else if 10 <= raw <= 12 {
        Some(1u8)
    } else {
        None
    }
}

pub open spec fn eval_depressed(raw: int) -> Option<u8> {
    if raw == 6 {
        Some(5u8)
    } else if 7 <= raw <= 8 {
        Some(4u8)
    } else if 9 <= raw <= 12 {
        Some(3u8)
    } else if 13 <= raw <= 16 {
        Some(2u8)
    } else if 17 <= raw <= 24 {
        Some(1u8)
    } else {
        None
    }
}

pub open spec fn eval_physical_complaint(raw: int) -> Option<u8> {
    if raw == 11 {
        Some(5u8)
    } else if 12 <= raw <= 15 {
        Some(4u8)
    } else if 16 <= raw <= 21 {
        Some(3u8)
    } else if 22 <= raw <= 26 {
        Some(2u8)
    } else if 27 <= raw <= 44 {
        Some(1u8)
    } else {
        None
    }
}

pub open spec fn eval_boss_support(raw: int) -> Option<u8> {
    if 3 <= raw <= 4 {
        Some(1u8)
    } else if 5 <= raw <= 6 {
        Some(2u8)
    } else if 7 <= raw <= 8 {
        Some(3u8)
    } else if 9 <= raw <= 10 {
        Some(4u8)
    } else if 11 <= raw <= 12 {
        Some(5u8)
    } else {
        None
    }
}

pub open spec fn eval_colleague_support(raw: int) -> Option<u8> {
    if 3 <= raw <= 5 {
        Some(1u8)
    } else if 6 <= raw <= 7 {
        Some(2u8)
    } else if 8 <= raw <= 9 {
        Some(3u8)
    } else if 10 <= raw <= 11 {
        Some(4u8)
    } else if raw == 12 {
        Some(5u8)
    } else {
        None
    }
}

pub open spec fn eval_family_support(raw: int) -> Option<u8> {
    if 3 <= raw <= 6 {
        Some(1u8)
    } else if 7 <= raw <= 8 {
        Some(2u8)
    } else if raw == 9 {
        Some(3u8)
    } else if 10 <= raw <= 11 {
        Some(4u8)
    } else if raw == 12 {
        Some(5u8)
    } else {
        None
    }
}

// ---------------------------------------------------------------------------
// Score values
// ---------------------------------------------------------------------------

/// The 17 named raw sub-scale sums, computed from the unadjusted answers.
/// Transient: it exists only as the input to the conversion-table lookup.
#[derive(Debug, Clone, Copy, PartialEq, Eq, Structural)]
pub struct IntermediateConversionScore {
    pub mental_work_stress_volume: u8,
    pub mental_work_stress_quality: u8,
    pub aware_physical_stress: u8,
    pub work_people_stress: u8,
    pub work_env_stress: u8,
    pub work_control: u8,
    pub skill_apply: u8,
    pub work_apply: u8,
    pub decent_work: u8,
    pub vitality: u8,
    pub iraira: u8,
    pub tired: u8,
    pub anxious: u8,
    pub depressed: u8,
    pub physical_complaint: u8,
    pub boss_support: u8,
    pub colleague_support: u8,
    pub family_support: u8,
}

/// Result of the conversion-table aggregation method: the 17 named
/// evaluation points, each in 1..=5. Domain sums are derived on demand as
/// the sum of the 9 "A", 6 "B" and 3 "C" sub-scales.
#[derive(Debug, Clone, Copy, PartialEq, Eq, Structural)]
pub struct ConversionScore {
    pub mental_work_stress_volume: u8,
    pub mental_work_stress_quality: u8,
    pub aware_physical_stress: u8,
    pub work_people_stress: u8,
    pub work_env_stress: u8,
    pub work_control: u8,
    pub skill_apply: u8,
    pub work_apply: u8,
    pub decent_work: u8,
    pub vitality: u8,
    pub iraira: u8,
    pub tired: u8,
    pub anxious: u8,
    pub depressed: u8,
    pub physical_complaint: u8,
    pub boss_support: u8,
    pub colleague_support: u8,
    pub family_support: u8,
}

/// Every evaluation point lies in 1..=5, as every conversion table
/// guarantees of its output.
pub open spec fn conversion_inv(c: ConversionScore) -> bool {
    &&& 1 <= c.mental_work_stress_volume <= 5
    &&& 1 <= c.mental_work_stress_quality <= 5
    &&& 1 <= c.aware_physical_stress <= 5
    &&& 1 <= c.work_people_stress <= 5
    &&& 1 <= c.work_env_stress <= 5
    &&& 1 <= c.work_control <= 5
    &&& 1 <= c.skill_apply <= 5
    &&& 1 <= c.work_apply <= 5
    &&& 1 <= c.decent_work <= 5
    &&& 1 <= c.vitality <= 5
    &&& 1 <= c.iraira <= 5
    &&& 1 <= c.tired <= 5
    &&& 1 <= c.anxious <= 5
    &&& 1 <= c.depressed <= 5
    &&& 1 <= c.physical_complaint <= 5
    &&& 1 <= c.boss_support <= 5
    &&& 1 <= c.colleague_support <= 5
    &&& 1 <= c.family_support <= 5
}

/// Every raw sub-scale sum of `m` falls inside its conversion table's
/// covered domain.
pub open spec fn all_evals_defined(m: IntermediateConversionScore) -> bool {
    &&& eval_mental_work_stress_volume(m.mental_work_stress_volume as int) is Some
    &&& eval_mental_work_stress_quality(m.mental_work_stress_quality as int) is Some
    &&& eval_aware_physical_stress(m.aware_physical_stress as int) is Some
    &&& eval_work_people_stress(m.work_people_stress as int) is Some
    &&& eval_work_env_stress(m.work_env_stress as int) is Some
    &&& eval_work_control(m.work_control as int) is Some
    &&& eval_skill_apply(m.skill_apply as int) is Some
    &&& eval_work_apply(m.work_apply as int) is Some
    &&& eval_decent_work(m.decent_work as int) is Some
    &&& eval_vitality(m.vitality as int) is Some
    &&& eval_iraira(m.iraira as int) is Some
    &&& eval_tired(m.tired as int) is Some
    &&& eval_anxious(m.anxious as int) is Some
    &&& eval_depressed(m.depressed as int) is Some
    &&& eval_physical_complaint(m.physical_complaint as int) is Some
    &&& eval_boss_support(m.boss_support as int) is Some
    &&& eval_colleague_support(m.colleague_support as int) is Some
    &&& eval_family_support(m.family_support as int) is Some
}

/// `c` holds exactly the evaluation points of the raw sub-scale sums in `m`.
pub open spec fn evals_of(m: IntermediateConversionScore, c: ConversionScore) -> bool {
    &&& eval_mental_work_stress_volume(m.mental_work_stress_volume as int) == Some(
        c.mental_work_stress_volume,
    )
    &&& eval_mental_work_stress_quality(m.mental_work_stress_quality as int) == Some(
        c.mental_work_stress_quality,
    )
    &&& eval_aware_physical_stress(m.aware_physical_stress as int) == Some(c.aware_physical_stress)
    &&& eval_work_people_stress(m.work_people_stress as int) == Some(c.work_people_stress)
    &&& eval_work_env_stress(m.work_env_stress as int) == Some(c.work_env_stress)
    &&& eval_work_control(m.work_control as int) == Some(c.work_control)
    &&& eval_skill_apply(m.skill_apply as int) == Some(c.skill_apply)
    &&& eval_work_apply(m.work_apply as int) == Some(c.work_apply)
    &&& eval_decent_work(m.decent_work as int) == Some(c.decent_work)
    &&& eval_vitality(m.vitality as int) == Some(c.vitality)
    &&& eval_iraira(m.iraira as int) == Some(c.iraira)
    &&& eval_tired(m.tired as int) == Some(c.tired)
    &&& eval_anxious(m.anxious as int) == Some(c.anxious)
    &&& eval_depressed(m.depressed as int) == Some(c.depressed)
    &&& eval_physical_complaint(m.physical_complaint as int) == Some(c.physical_complaint)
    &&& eval_boss_support(m.boss_support as int) == Some(c.boss_support)
    &&& eval_colleague_support(m.colleague_support as int) == Some(c.colleague_support)
    &&& eval_family_support(m.family_support as int) == Some(c.family_support)
}

/// `m` holds exactly the 17 raw sub-scale sums of the stored answers `s`.
pub open spec fn intermediate_matches(s: Seq<u8>, m: IntermediateConversionScore) -> bool {
    &&& m.mental_work_stress_volume as int == raw_mental_work_stress_volume(s)
    &&& m.mental_work_stress_quality as int == raw_mental_work_stress_quality(s)
    &&& m.aware_physical_stress as int == raw_aware_physical_stress(s)
    &&& m.work_people_stress as int == raw_work_people_stress(s)
    &&& m.work_env_stress as int == raw_work_env_stress(s)
    &&& m.work_control as int == raw_work_control(s)
    &&& m.skill_apply as int == raw_skill_apply(s)
    &&& m.work_apply as int == raw_work_apply(s)
    &&& m.decent_work as int == raw_decent_work(s)
    &&& m.vitality as int == raw_vitality(s)
    &&& m.iraira as int == raw_iraira(s)
    &&& m.tired as int == raw_tired(s)
    &&& m.anxious as int == raw_anxious(s)
    &&& m.depressed as int == raw_depressed(s)
    &&& m.physical_complaint as int == raw_physical_complaint(s)
    &&& m.boss_support as int == raw_boss_support(s)
    &&& m.colleague_support as int == raw_colleague_support(s)
    &&& m.family_support as int == raw_family_support(s)
}

/// `c` holds the evaluation points that the conversion tables assign to the
/// raw sub-scale sums of the stored answers `s`.
pub open spec fn conversion_matches(s: Seq<u8>, c: ConversionScore) -> bool {
    &&& eval_mental_work_stress_volume(raw_mental_work_stress_volume(s)) == Some(
        c.mental_work_stress_volume,
    )
    &&& eval_mental_work_stress_quality(raw_mental_work_stress_quality(s)) == Some(
        c.mental_work_stress_quality,
    )
    &&& eval_aware_physical_stress(raw_aware_physical_stress(s)) == Some(c.aware_physical_stress)
    &&& eval_work_people_stress(raw_work_people_stress(s)) == Some(c.work_people_stress)
    &&& eval_work_env_stress(raw_work_env_stress(s)) == Some(c.work_env_stress)
    &&& eval_work_control(raw_work_control(s)) == Some(c.work_control)
    &&& eval_skill_apply(raw_skill_apply(s)) == Some(c.skill_apply)
    &&& eval_work_apply(raw_work_apply(s)) == Some(c.work_apply)
    &&& eval_decent_work(raw_decent_work(s)) == Some(c.decent_work)
    &&& eval_vitality(raw_vitality(s)) == Some(c.vitality)
    &&& eval_iraira(raw_iraira(s)) == Some(c.iraira)
    &&& eval_tired(raw_tired(s)) == Some(c.tired)
    &&& eval_anxious(raw_anxious(s)) == Some(c.anxious)
    &&& eval_depressed(raw_depressed(s)) == Some(c.depressed)
    &&& eval_physical_complaint(raw_physical_complaint(s)) == Some(c.physical_complaint)
    &&& eval_boss_support(raw_boss_support(s)) == Some(c.boss_support)
    &&& eval_colleague_support(raw_colleague_support(s)) == Some(c.colleague_support)
    &&& eval_family_support(raw_family_support(s)) == Some(c.family_support)
}

// ---------------------------------------------------------------------------
// Domain sums of the evaluation points
// ---------------------------------------------------------------------------

/// Domain sum A: the nine work-stressor sub-scales.
pub open spec fn spec_conv_a(c: ConversionScore) -> int {
    c.mental_work_stress_volume as int + c.mental_work_stress_quality as int
        + c.aware_physical_stress as int + c.work_people_stress as int + c.work_env_stress as int
        + c.work_control as int + c.skill_apply as int + c.work_apply as int + c.decent_work as int
}

/// Domain sum B: the six stress-reaction sub-scales.
pub open spec fn spec_conv_b(c: ConversionScore) -> int {
    c.vitality as int + c.iraira as int + c.tired as int + c.anxious as int + c.depressed as int
        + c.physical_complaint as int
}

/// Domain sum C: the three support sub-scales.
pub open spec fn spec_conv_c(c: ConversionScore) -> int {
    c.boss_support as int + c.colleague_support as int + c.family_support as int
}

/// Table lookup for the `mental_work_stress_volume` sub-scale.
fn lookup_mental_work_stress_volume(raw: u8) -> (r: Option<u8>)
    ensures
        r == eval_mental_work_stress_volume(raw as int),
{
    if 3 <= raw && raw <= 5 {
        Some(5)
    } else if 6 <= raw && raw <= 7 {
        Some(4)
    } else if 8 <= raw && raw <= 9 {
        Some(3)
    } else if 10 <= raw && raw <= 11 {
        Some(2)
    } else if raw == 12 {
        Some(1)
    } else {
        None
    }
}

/// Table lookup for the `mental_work_stress_quality` sub-scale.
fn lookup_mental_work_stress_quality(raw: u8) -> (r: Option<u8>)
    ensures
        r == eval_mental_work_stress_quality(raw as int),
{
    if 3 <= raw && raw <= 5 {
        Some(5)
    } else if 6 <= raw && raw <= 7 {
        Some(4)
    } else if 8 <= raw && raw <= 9 {
        Some(3)
    } else if 10 <= raw && raw <= 11 {
        Some(2)
    } else if raw == 12 {
        Some(1)
    } else {
        None
    }
}

/// Table lookup for the `aware_physical_stress` sub-scale.
fn lookup_aware_physical_stress(raw: u8) -> (r: Option<u8>)
    ensures
        r == eval_aware_physical_stress(raw as int),
{
    if raw == 1 {
        Some(4)
    } else if raw == 2 {
        Some(3)
    } else if raw == 3 {
        Some(2)
    } else if raw == 4 {
        Some(1)
    } else {
        None
    }
}

/// Table lookup for the `work_people_stress` sub-scale.
fn lookup_work_people_stress(raw: u8) -> (r: Option<u8>)
    ensures
        r == eval_work_people_stress(raw as int),
{
    if raw == 3 {
        Some(5)
    } else if 4 <= raw && raw <= 5 {
        Some(4)
    } else if 6 <= raw && raw <= 7 {
        Some(3)
    } else if 8 <= raw && raw <= 9 {
        Some(2)
    } else if 10 <= raw && raw <= 12 {
        Some(1)
    } else {
        None
    }
}

/// Table lookup for the `work_env_stress` sub-scale.
fn lookup_work_env_stress(raw: u8) -> (r: Option<u8>)
    ensures
        r == eval_work_env_stress(raw as int),
{
    if raw == 1 {
        Some(4)
    } else if raw == 2 {
        Some(3)
    } else if raw == 3 {
        Some(2)
    } else if raw == 4 {
        Some(1)
    } else {
        None
    }
}

/// Table lookup for the `work_control` sub-scale.
fn lookup_work_control(raw: u8) -> (r: Option<u8>)
    ensures
        r == eval_work_control(raw as int),
{
    if 3 <= raw && raw <= 4 {
        Some(1)
    } else if 5 <= raw && raw <= 6 {
        Some(2)
    } else if 7 <= raw && raw <= 8 {
        Some(3)
    } else if 9 <= raw && raw <= 10 {
        Some(4)
    } else if 11 <= raw && raw <= 12 {
        Some(5)
    } else {
        None
    }
}

/// Table lookup for the `skill_apply` sub-scale.
fn lookup_skill_apply(raw: u8) -> (r: Option<u8>)
    ensures
        r == eval_skill_apply(raw as int),
{
    if raw == 1 {
        Some(1)
    } else if raw == 2 {
        Some(2)
    } else if raw == 3 {
        Some(3)
    } else if raw == 4 {
        Some(4)
    } else {
        None
    }
}

/// Table lookup for the `work_apply` sub-scale.
fn lookup_work_apply(raw: u8) -> (r: Option<u8>)
    ensures
        r == eval_work_apply(raw as int),
{
    if raw == 1 {
        Some(1)
    } else if raw == 2 {
        Some(2)
    } else if raw == 3 {
        Some(3)
    } else if raw == 4 {
        Some(5)
    } else {
        None
    }
}

/// Table lookup for the `decent_work` sub-scale.
fn lookup_decent_work(raw: u8) -> (r: Option<u8>)
    ensures
        r == eval_decent_work(raw as int),
{
    if raw == 1 {
        Some(1)
    } else if raw == 2 {
        Some(2)
    } else if raw == 3 {
        Some(3)
    } else if raw == 4 {
        Some(5)
    } else {
        None
    }
}

/// Table lookup for the `vitality` sub-scale.
fn lookup_vitality(raw: u8) -> (r: Option<u8>)
    ensures
        r == eval_vitality(raw as int),
{
    if raw == 3 {
        Some(1)
    } else if 4 <= raw && raw <= 5 {
        Some(2)
    } else if 6 <= raw && raw <= 7 {
        Some(3)
    } else if 8 <= raw && raw <= 9 {
        Some(4)
    } else if 10 <= raw && raw <= 12 {
        Some(5)
    } else {
        None
    }
}

/// Table lookup for the `iraira` sub-scale.
fn lookup_iraira(raw: u8) -> (r: Option<u8>)
    ensures
        r == eval_iraira(raw as int),
{
    if raw == 3 {
        Some(5)
    } else if 4 <= raw && raw <= 5 {
        Some(4)
    } else if 6 <= raw && raw <= 7 {
        Some(3)
    } else if 8 <= raw && raw <= 9 {
        Some(2)
    } else if 10 <= raw && raw <= 12 {
        Some(1)
    } else {
        None
    }
}

/// Table lookup for the `tired` sub-scale.
fn lookup_tired(raw: u8) -> (r: Option<u8>)
    ensures
        r == eval_tired(raw as int),
{
    if raw == 3 {
        Some(5)
    } else if raw == 4 {
        Some(4)
    } else if 5 <= raw && raw <= 7 {
        Some(3)
    } else if 8 <= raw && raw <= 10 {
        Some(2)
    } else if 11 <= raw && raw <= 12 {
        Some(1)
    } else {
        None
    }
}

/// Table lookup for the `anxious` sub-scale.
fn lookup_anxious(raw: u8) -> (r: Option<u8>)
    ensures
        r == eval_anxious(raw as int),
{
    if raw == 3 {
        Some(5)
    } else if raw == 4 {
        Some(4)
    } else if 5 <= raw && raw <= 7 {
        Some(3)
    } else if 8 <= raw && raw <= 9 {
        Some(2)
    } else if 10 <= raw && raw <= 12 {
        Some(1)
    } else {
        None
    }
}

/// Table lookup for the `depressed` sub-scale.
fn lookup_depressed(raw: u8) -> (r: Option<u8>)
    ensures
        r == eval_depressed(raw as int),
{
    if raw == 6 {
        Some(5)
    } else if 7 <= raw && raw <= 8 {
        Some(4)
    } else if 9 <= raw && raw <= 12 {
        Some(3)
    } else if 13 <= raw && raw <= 16 {
        Some(2)
    } else if 17 <= raw && raw <= 24 {
        Some(1)
    } else {
        None
    }
}

/// Table lookup for the `physical_complaint` sub-scale.
fn lookup_physical_complaint(raw: u8) -> (r: Option<u8>)
    ensures
        r == eval_physical_complaint(raw as int),
{
    if raw == 11 {
        Some(5)
    } else if 12 <= raw && raw <= 15 {
        Some(4)
    } else if 16 <= raw && raw <= 21 {
        Some(3)
    } else if 22 <= raw && raw <= 26 {
        Some(2)
    } else if 27 <= raw && raw <= 44 {
        Some(1)
    } else {
        None
    }
}

/// Table lookup for the `boss_support` sub-scale.
fn lookup_boss_support(raw: u8) -> (r: Option<u8>)
    ensures
        r == eval_boss_support(raw as int),
{
    if 3 <= raw && raw <= 4 {
        Some(1)
    } else if 5 <= raw && raw <= 6 {
        Some(2)
    } else if 7 <= raw && raw <= 8 {
        Some(3)
    } else if 9 <= raw && raw <= 10 {
        Some(4)
    } else if 11 <= raw && raw <= 12 {
        Some(5)
    } else {
        None
    }
}

/// Table lookup for the `colleague_support` sub-scale.
fn lookup_colleague_support(raw: u8) -> (r: Option<u8>)
    ensures
        r == eval_colleague_support(raw as int),
{
    if 3 <= raw && raw <= 5 {
        Some(1)
    } else if 6 <= raw && raw <= 7 {
        Some(2)
    } else if 8 <= raw && raw <= 9 {
        Some(3)
    } else if 10 <= raw && raw <= 11 {
        Some(4)
    } else if raw == 12 {
        Some(5)
    } else {
        None
    }
}

/// Table lookup for the `family_support` sub-scale.
fn lookup_family_support(raw: u8) -> (r: Option<u8>)
    ensures
        r == eval_family_support(raw as int),
{
    if 3 <= raw && raw <= 6 {
        Some(1)
    } else if 7 <= raw && raw <= 8 {
        Some(2)
    } else if raw == 9 {
        Some(3)
    } else if 10 <= raw && raw <= 11 {
        Some(4)
    } else if raw == 12 {
        Some(5)
    } else {
        None
    }
}

impl ConversionScore {
    /// Maps each of the 17 raw sub-scale sums through its conversion table.
    /// Succeeds exactly when every raw sum lies in its table's covered
    /// domain; any raw sum outside its table fails with `IllegalAnswer`.
    #[verifier::rlimit(50)]
    pub fn from_intermediate(m: IntermediateConversionScore) -> (r: Result<ConversionScore, Error>)
        ensures
            r is Ok <==> all_evals_defined(m),
            r is Ok ==> evals_of(m, r->Ok_0) && conversion_inv(r->Ok_0),
            !all_evals_defined(m) ==> r == Err::<ConversionScore, Error>(Error::IllegalAnswer),
    {
        let mental_work_stress_volume = match lookup_mental_work_stress_volume(m.mental_work_stress_volume) {
            Some(point) => point,
            None => { return Err(Error::IllegalAnswer) },
        };
        let mental_work_stress_quality = match lookup_mental_work_stress_quality(m.mental_work_stress_quality) {
            Some(point) => point,
            None => { return Err(Error::IllegalAnswer) },
        };
        let aware_physical_stress = match lookup_aware_physical_stress(m.aware_physical_stress) {
            Some(point) => point,
            None => { return Err(Error::IllegalAnswer) },
        };
        let work_people_stress = match lookup_work_people_stress(m.work_people_stress) {
            Some(point) => point,
            None => { return Err(Error::IllegalAnswer) },
        };
        let work_env_stress = match lookup_work_env_stress(m.work_env_stress) {
            Some(point) => point,
            None => { return Err(Error::IllegalAnswer) },
        };
        let work_control = match lookup_work_control(m.work_control) {
            Some(point) => point,
            None => { return Err(Error::IllegalAnswer) },
        };
        let skill_apply = match lookup_skill_apply(m.skill_apply) {
            Some(point) => point,
            None => { return Err(Error::IllegalAnswer) },
        };
        let work_apply = match lookup_work_apply(m.work_apply) {
            Some(point) => point,
            None => { return Err(Error::IllegalAnswer) },
        };
        let decent_work = match lookup_decent_work(m.decent_work) {
            Some(point) => point,
            None => { return Err(Error::IllegalAnswer) },
        };
        let vitality = match lookup_vitality(m.vitality) {
            Some(point) => point,
            None => { return Err(Error::IllegalAnswer) },
        };
        let iraira = match lookup_iraira(m.iraira) {
            Some(point) => point,
            None => { return Err(Error::IllegalAnswer) },
        };
        let tired = match lookup_tired(m.tired) {
            Some(point) => point,
            None => { return Err(Error::IllegalAnswer) },
        };
        let anxious = match lookup_anxious(m.anxious) {
            Some(point) => point,
            None => { return Err(Error::IllegalAnswer) },
        };
        let depressed = match lookup_depressed(m.depressed) {
            Some(point) => point,
            None => { return Err(Error::IllegalAnswer) },
        };
        let physical_complaint = match lookup_physical_complaint(m.physical_complaint) {
            Some(point) => point,
            None => { return Err(Error::IllegalAnswer) },
        };
        let boss_support = match lookup_boss_support(m.boss_support) {
            Some(point) => point,
            None => { return Err(Error::IllegalAnswer) },
        };
        let colleague_support = match lookup_colleague_support(m.colleague_support) {
            Some(point) => point,
            None => { return Err(Error::IllegalAnswer) },
        };
        let family_support = match lookup_family_support(m.family_support) {
            Some(point) => point,
            None => { return Err(Error::IllegalAnswer) },
        };
        Ok(
            ConversionScore {
                mental_work_stress_volume,
                mental_work_stress_quality,
                aware_physical_stress,
                work_people_stress,
                work_env_stress,
                work_control,
                skill_apply,
                work_apply,
                decent_work,
                vitality,
                iraira,
                tired,
                anxious,
                depressed,
                physical_complaint,
                boss_support,
                colleague_support,
                family_support,
            },
        )
    }
}

impl Stress for ConversionScore {
    open spec fn inv(&self) -> bool {
        conversion_inv(*self)
    }

    open spec fn spec_scores(&self) -> (int, int, int) {
        (spec_conv_a(*self), spec_conv_b(*self), spec_conv_c(*self))
    }

    /// High stress under the conversion rule: B <= 12, or A + C <= 26
    /// together with B <= 17 (evaluation points run opposite to raw sums: a
    /// low point means high stress).
    open spec fn spec_has_stress(&self) -> bool {
        spec_conv_b(*self) <= 12 || (spec_conv_a(*self) + spec_conv_c(*self) <= 26 && spec_conv_b(
            *self,
        ) <= 17)
    }

    fn scores(&self) -> (r: (u8, u8, u8)) {
        (
            self.mental_work_stress_volume + self.mental_work_stress_quality
                + self.aware_physical_stress + self.work_people_stress + self.work_env_stress
                + self.work_control + self.skill_apply + self.work_apply + self.decent_work,
            self.vitality + self.iraira + self.tired + self.anxious + self.depressed
                + self.physical_complaint,
            self.boss_support + self.colleague_support + self.family_support,
        )
    }

    fn has_stress(&self) -> (r: bool) {
        let (sum_a, sum_b, sum_c) = self.scores();
        sum_b <= 12 || (sum_a + sum_c <= 26 && sum_b <= 17)
    }
}

impl AnswerStore {
    /// Conversion-table aggregation: fails with `NotFulfilled` exactly when
    /// some slot is unset; otherwise computes the 17 raw sub-scale sums from
    /// the unadjusted answers (the scale inversion is baked into the tables)
    /// and maps each through its conversion table. On a well-formed, fully
    /// populated store every raw sum lies in its table's domain, so the
    /// lookup always succeeds.
    pub fn to_conversion_score(&self) -> (r: Result<ConversionScore, Error>)
        requires
            self.wf(),
        ensures
            !self.is_full() ==> r == Err::<ConversionScore, Error>(Error::NotFulfilled),
            self.is_full() ==> {
                &&& r is Ok
                &&& conversion_matches(self@, r->Ok_0)
                &&& conversion_inv(r->Ok_0)
            },
    {
        if !self.all_set() {
            return Err(Error::NotFulfilled);
        }
        proof {
            assert forall|i: int| 0 <= i < self@.len() implies 1 <= #[trigger] self@[i] <= 4 by {
                assert(self@[i] != 0);
            }
        }
        let m = IntermediateConversionScore {
            mental_work_stress_volume: 15 - (self.value_at(0) + self.value_at(1) + self.value_at(
                2,
            )),
            mental_work_stress_quality: 15 - (self.value_at(3) + self.value_at(4) + self.value_at(
                5,
            )),
            aware_physical_stress: 5 - self.value_at(6),
            work_people_stress: 10 - (self.value_at(11) + self.value_at(12)) + self.value_at(13),
            work_env_stress: 5 - self.value_at(14),
            work_control: 15 - (self.value_at(7) + self.value_at(8) + self.value_at(9)),
            skill_apply: self.value_at(10),
            work_apply: 5 - self.value_at(15),
            decent_work: 5 - self.value_at(16),
            vitality: self.value_at(17) + self.value_at(18) + self.value_at(19),
            iraira: self.value_at(20) + self.value_at(21) + self.value_at(22),
            tired: self.value_at(23) + self.value_at(24) + self.value_at(25),
            anxious: self.value_at(26) + self.value_at(27) + self.value_at(28),
            depressed: self.value_at(29) + self.value_at(30) + self.value_at(31) + self.value_at(32)
                + self.value_at(33) + self.value_at(34),
            physical_complaint: self.value_at(35) + self.value_at(36) + self.value_at(37)
                + self.value_at(38) + self.value_at(39) + self.value_at(40) + self.value_at(41)
                + self.value_at(42) + self.value_at(43) + self.value_at(44) + self.value_at(45),
            boss_support: 15 - (self.value_at(46) + self.value_at(49) + self.value_at(52)),
            colleague_support: 15 - (self.value_at(47) + self.value_at(50) + self.value_at(53)),
            family_support: 15 - (self.value_at(48) + self.value_at(51) + self.value_at(54)),
        };
        assert(intermediate_matches(self@, m));
        ConversionScore::from_intermediate(m)
    }
}

/// Conversion scoring is deterministic: any two results that match stores
/// with the same contents are equal, so repeated calls on an unchanged store
/// return identical scores.
pub proof fn lemma_conversion_deterministic(
    s1: Seq<u8>,
    s2: Seq<u8>,
    r1: ConversionScore,
    r2: ConversionScore,
)
    requires
        s1 == s2,
        conversion_matches(s1, r1),
        conversion_matches(s2, r2),
    ensures
        r1 == r2,
{
}

} // verus!
