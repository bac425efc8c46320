//! Static row layout of the compression and message-schedule subregions.
use vstd::prelude::*;

verus! {

/// Rows used by the upper-sigma-0 gate.
pub const SIGMA_0_ROWS: usize = 9;
/// Rows used by the upper-sigma-1 gate.
pub const SIGMA_1_ROWS: usize = 9;
/// Rows used by the two choice gates together.
pub const CH_ROWS: usize = 18;
/// Rows used by the majority gate.
pub const MAJ_ROWS: usize = 9;
/// Rows used by the decomposition of an A-type word.
pub const DECOMPOSE_ABCD: usize = 4;
/// Rows used by the decomposition of an E-type word.
pub const DECOMPOSE_EFGH: usize = 5;
/// Number of main rounds.
pub const SUBREGION_MAIN_LEN: usize = 80;
/// Rows of one main round.
pub const SUBREGION_MAIN_WORD: usize = 54;
/// Rows of the whole main subregion.
pub const SUBREGION_MAIN_ROWS: usize = 4320;

/// Rows of each decomposition in the message schedule.
pub const DECOMPOSE_0_ROWS: usize = 6;
/// Rows of one word of schedule subregion 1 (decomposition and sigma 0).
pub const SUBREGION_1_WORD: usize = 14;
/// Rows of one word of schedule subregion 2 (decomposition, sigma 0 and sigma 1).
pub const SUBREGION_2_WORD: usize = 22;
/// Rows of one word of schedule subregion 3 (decomposition and sigma 1).
pub const SUBREGION_3_WORD: usize = 14;
/// First row of schedule subregion 1.
pub const SUBREGION_1_START: usize = 6;
/// First row of schedule subregion 2.
pub const SUBREGION_2_START: usize = 188;
/// First row of schedule subregion 3.
pub const SUBREGION_3_START: usize = 1310;
/// First row of the tail of the schedule (the last two words).
pub const SUBREGION_4_START: usize = 1492;

/// The initial round, which loads the starting state.
pub struct InitialRound;

/// The index of a main round, in `0..80`.
#[derive(Debug, Copy, Clone, PartialEq, Eq, Structural)]
pub struct MainRoundIdx(pub usize);

/// Either the initial round or a main round.
#[derive(Debug, Copy, Clone, PartialEq, Eq, Structural)]
pub enum RoundIdx {
    Init,
    Main(MainRoundIdx),
}

impl MainRoundIdx {
    pub fn as_usize(&self) -> (r: usize)
        ensures
            r == self.0,
    {
        self.0
    }
}

/// A band of rows reserved inside one main round, in the order in which the
/// bands follow each other.
#[derive(Debug, Copy, Clone, PartialEq, Eq, Structural)]
pub enum RoundPart {
    DecomposeE,
    UpperSigma1,
    Ch,
    ChNeg,
    DecomposeA,
    UpperSigma0,
    Maj,
}

/// Offset of a band from the first row of its round.
pub open spec fn part_offset(p: RoundPart) -> nat {
    match p {
        RoundPart::DecomposeE => 0,
        RoundPart::UpperSigma1 => 5,
        RoundPart::Ch => 14,
        RoundPart::ChNeg => 23,
        RoundPart::DecomposeA => 32,
        RoundPart::UpperSigma0 => 36,
        RoundPart::Maj => 45,
    }
}

/// Number of rows of a band.
pub open spec fn part_len(p: RoundPart) -> nat {
    match p {
        RoundPart::DecomposeE => DECOMPOSE_EFGH as nat,
        RoundPart::UpperSigma1 => SIGMA_1_ROWS as nat,
        RoundPart::Ch => (CH_ROWS / 2) as nat,
        RoundPart::ChNeg => (CH_ROWS / 2) as nat,
        RoundPart::DecomposeA => DECOMPOSE_ABCD as nat,
        RoundPart::UpperSigma0 => SIGMA_0_ROWS as nat,
        RoundPart::Maj => MAJ_ROWS as nat,
    }
}

/// First row reserved for band `p` of main round `round`.
pub open spec fn part_start(p: RoundPart, round: nat) -> nat {
    round * SUBREGION_MAIN_WORD as nat + part_offset(p)
}

/// First row of the digest subregion's half for `A..D` (`efgh == false`) or
/// `E..H` (`efgh == true`); each half takes four rows.
pub open spec fn digest_start(efgh: bool) -> nat {
    SUBREGION_MAIN_ROWS as nat + if efgh { 4nat } else { 0nat }
}

/// Two ranges of rows `[s1, s1 + l1)` and `[s2, s2 + l2)` share no row.
pub open spec fn disjoint(s1: nat, l1: nat, s2: nat, l2: nat) -> bool {
    s1 + l1 <= s2 || s2 + l2 <= s1
}

/// Starting row of a compression round.
pub fn get_round_row(round_idx: RoundIdx) -> (r: usize)
    requires
        round_idx matches RoundIdx::Main(m) ==> m.0 < 80,
    ensures
        r == match round_idx {
            RoundIdx::Init => 0,
            RoundIdx::Main(m) => m.0 * SUBREGION_MAIN_WORD,
        },
{
    match round_idx {
        RoundIdx::Init => 0,
        RoundIdx::Main(MainRoundIdx(idx)) => idx * SUBREGION_MAIN_WORD,
    }
}

/// Row at which an E-type word is decomposed.
pub fn get_decompose_e_row(round_idx: RoundIdx) -> (r: usize)
    requires
        round_idx matches RoundIdx::Main(m) ==> m.0 < 80,
    ensures
        r == match round_idx {
            RoundIdx::Init => 0,
            RoundIdx::Main(m) => part_start(RoundPart::DecomposeE, m.0 as nat),
        },
{
    get_round_row(round_idx)
}

/// Row at which the initial round decomposes F.
pub fn get_decompose_f_row(round_idx: InitialRound) -> (r: usize)
    ensures
        r == 5,
{
    get_decompose_e_row(RoundIdx::Init) + DECOMPOSE_EFGH
}

/// Row at which the initial round decomposes G.
pub fn get_decompose_g_row(round_idx: InitialRound) -> (r: usize)
    ensures
        r == 10,
{
    get_decompose_f_row(round_idx) + DECOMPOSE_EFGH
}

/// Row of the upper-sigma-1 gate; it uses the row before and the row after.
pub fn get_upper_sigma_1_row(round_idx: MainRoundIdx) -> (r: usize)
    requires
        round_idx.0 < 80,
    ensures
        r == part_start(RoundPart::UpperSigma1, round_idx.0 as nat) + 1,
{
    get_decompose_e_row(RoundIdx::Main(round_idx)) + DECOMPOSE_EFGH + 1
}

/// Row of the choice gate on `E` and `F`; it uses the row before and after.
pub fn get_ch_row(round_idx: MainRoundIdx) -> (r: usize)
    requires
        round_idx.0 < 80,
    ensures
        r == part_start(RoundPart::Ch, round_idx.0 as nat) + 1,
{
    get_decompose_e_row(RoundIdx::Main(round_idx)) + DECOMPOSE_EFGH + SIGMA_1_ROWS + 1
}

/// Row of the choice gate on `!E` and `G`; it uses the row before and after.
pub fn get_ch_neg_row(round_idx: MainRoundIdx) -> (r: usize)
    requires
        round_idx.0 < 80,
    ensures
        r == part_start(RoundPart::ChNeg, round_idx.0 as nat) + 1,
{
    get_ch_row(round_idx) + CH_ROWS / 2
}

/// Row at which an A-type word is decomposed.
pub fn get_decompose_a_row(round_idx: RoundIdx) -> (r: usize)
    requires
        round_idx matches RoundIdx::Main(m) ==> m.0 < 80,
    ensures
        r == match round_idx {
            RoundIdx::Init => 20,
            RoundIdx::Main(m) => part_start(RoundPart::DecomposeA, m.0 as nat),
        },
{
    match round_idx {
        RoundIdx::Init => get_h_row(round_idx) + DECOMPOSE_EFGH,
        RoundIdx::Main(mri) => get_ch_neg_row(mri) - 1 + CH_ROWS / 2,
    }
}

/// Row of the upper-sigma-0 gate; it uses the row before and the row after.
pub fn get_upper_sigma_0_row(round_idx: MainRoundIdx) -> (r: usize)
    requires
        round_idx.0 < 80,
    ensures
        r == part_start(RoundPart::UpperSigma0, round_idx.0 as nat) + 1,
{
    get_decompose_a_row(RoundIdx::Main(round_idx)) + DECOMPOSE_ABCD + 1
}

/// Row at which the initial round decomposes B.
pub fn get_decompose_b_row(round_idx: InitialRound) -> (r: usize)
    ensures
        r == 24,
{
    get_decompose_a_row(RoundIdx::Init) + DECOMPOSE_ABCD
}

/// Row at which the initial round decomposes C.
pub fn get_decompose_c_row(round_idx: InitialRound) -> (r: usize)
    ensures
        r == 28,
{
    get_decompose_b_row(round_idx) + DECOMPOSE_ABCD
}

/// Row of the majority gate; it uses the row before and the row after.
pub fn get_maj_row(round_idx: MainRoundIdx) -> (r: usize)
    requires
        round_idx.0 < 80,
    ensures
        r == part_start(RoundPart::Maj, round_idx.0 as nat) + 1,
{
    get_upper_sigma_0_row(round_idx) + SIGMA_0_ROWS
}

/// Row of the H word: in the initial round its own decomposition, in a main
/// round the first row of the choice band.
pub fn get_h_row(round_idx: RoundIdx) -> (r: usize)
    requires
        round_idx matches RoundIdx::Main(m) ==> m.0 < 80,
    ensures
        r == match round_idx {
            RoundIdx::Init => 15,
            RoundIdx::Main(m) => part_start(RoundPart::Ch, m.0 as nat),
        },
{
    match round_idx {
        RoundIdx::Init => get_decompose_g_row(InitialRound) + DECOMPOSE_EFGH,
        RoundIdx::Main(mri) => get_ch_row(mri) - 1,
    }
}

/// Row of the six-operand sum that gives H'.
pub fn get_h_prime_row(round_idx: MainRoundIdx) -> (r: usize)
    requires
        round_idx.0 < 80,
    ensures
        r == part_start(RoundPart::Ch, round_idx.0 as nat) + 1,
{
    get_ch_row(round_idx)
}

/// Row of the D word.
pub fn get_d_row(round_idx: RoundIdx) -> (r: usize)
    requires
        round_idx matches RoundIdx::Main(m) ==> m.0 < 80,
    ensures
        r == match round_idx {
            RoundIdx::Init => 32,
            RoundIdx::Main(m) => part_start(RoundPart::Ch, m.0 as nat) + 3,
        },
{
    match round_idx {
        RoundIdx::Init => get_decompose_c_row(InitialRound) + DECOMPOSE_ABCD,
        RoundIdx::Main(mri) => get_ch_row(mri) + 2,
    }
}

/// Row of the two-operand sum that gives the new E.
pub fn get_e_new_row(round_idx: MainRoundIdx) -> (r: usize)
    requires
        round_idx.0 < 80,
    ensures
        r == part_start(RoundPart::Ch, round_idx.0 as nat) + 3,
{
    get_d_row(RoundIdx::Main(round_idx))
}

/// Row of the three-operand sum that gives the new A.
pub fn get_a_new_row(round_idx: MainRoundIdx) -> (r: usize)
    requires
        round_idx.0 < 80,
    ensures
        r == part_start(RoundPart::Maj, round_idx.0 as nat) + 1,
{
    get_maj_row(round_idx)
}

/// First row of the digest words `A..D`.
pub fn get_digest_abcd_row() -> (r: usize)
    ensures
        r == digest_start(false),
{
    SUBREGION_MAIN_ROWS
}

/// First row of the digest words `E..H`.
pub fn get_digest_efgh_row() -> (r: usize)
    ensures
        r == digest_start(true),
{
    get_digest_abcd_row() + 4
}

/// Bands of distinct (band, round) pairs of the main subregion share no row,
/// each gate row lies with its neighbours inside its own band, and the digest
/// rows lie after every round.
pub proof fn lemma_round_layout_disjoint(p1: RoundPart, r1: nat, p2: RoundPart, r2: nat)
    requires
        r1 < 80,
        r2 < 80,
        p1 != p2 || r1 != r2,
    ensures
        disjoint(part_start(p1, r1), part_len(p1), part_start(p2, r2), part_len(p2)),
        part_start(p1, r1) + part_len(p1) <= digest_start(false),
        disjoint(digest_start(false), 4, digest_start(true), 4),
{
    assert(part_offset(p1) + part_len(p1) <= 54 && part_offset(p2) + part_len(p2) <= 54);
    if r1 != r2 {
        if r1 < r2 {
            assert(r1 * 54 + 54 <= r2 * 54) by (nonlinear_arith)
                requires
                    r1 < r2,
            ;
        } else {
            assert(r2 * 54 + 54 <= r1 * 54) by (nonlinear_arith)
                requires
                    r2 < r1,
            ;
        }
    }
    assert(r1 * 54 + 54 <= 4320) by (nonlinear_arith)
        requires
            r1 < 80,
    ;
}

/// First row and number of rows reserved for scheduled word `i`.
pub open spec fn word_slot(i: nat) -> (nat, nat) {
    if i == 0 {
        (0, DECOMPOSE_0_ROWS as nat)
    } else if i <= 13 {
        ((SUBREGION_1_START + SUBREGION_1_WORD * (i - 1)) as nat, SUBREGION_1_WORD as nat)
    } else if i <= 64 {
        ((SUBREGION_2_START + SUBREGION_2_WORD * (i - 14)) as nat, SUBREGION_2_WORD as nat)
    } else if i <= 77 {
        ((SUBREGION_3_START + SUBREGION_3_WORD * (i - 65)) as nat, SUBREGION_3_WORD as nat)
    } else {
        ((SUBREGION_4_START + DECOMPOSE_0_ROWS * (i - 78)) as nat, DECOMPOSE_0_ROWS as nat)
    }
}

/// Row at which scheduled word `word_idx` is read; subregion 2 keeps its word
/// one row below the first row of its slot.
pub fn get_word_row(word_idx: usize) -> (r: usize)
    requires
        word_idx <= 79,
    ensures
        r == word_slot(word_idx as nat).0 + if 14 <= word_idx <= 64 { 1nat } else { 0nat },
        r < word_slot(word_idx as nat).0 + word_slot(word_idx as nat).1,
{
    if word_idx == 0 {
        0
    } else if 1 <= word_idx && word_idx <= 13 {
        SUBREGION_1_START + SUBREGION_1_WORD * (word_idx - 1)
    } else if 14 <= word_idx && word_idx <= 64 {
        SUBREGION_2_START + SUBREGION_2_WORD * (word_idx - 14) + 1
    } else if 65 <= word_idx && word_idx <= 77 {
        SUBREGION_3_START + SUBREGION_3_WORD * (word_idx - 65)
    } else {
        SUBREGION_4_START + DECOMPOSE_0_ROWS * (word_idx - 78)
    }
}

/// The slots of two distinct scheduled words share no row, and every slot ends
/// before the schedule's last row.
pub proof fn lemma_schedule_layout_disjoint(i: nat, j: nat)
    requires
        i <= 79,
        j <= 79,
        i != j,
    ensures
        disjoint(word_slot(i).0, word_slot(i).1, word_slot(j).0, word_slot(j).1),
        word_slot(i).0 + word_slot(i).1 <= SUBREGION_4_START + 2 * DECOMPOSE_0_ROWS,
{
}

} // verus!
