//! Player ranks of the PUG ladder.

use vstd::prelude::*;

verus! {

/// Discord role ids of the ranks on the main server.
pub const EU_BEGINNER_R_ID: u64 = 1386989827307606107;
pub const EU_NEWCOMER_R_ID: u64 = 1386951211109974066;
pub const EU_NOVICE_R_ID: u64 = 1386951241539784827;
pub const EU_APPRENTICE_R_ID: u64 = 1386951264117592097;
pub const EU_JOURNEYMAN_R_ID: u64 = 1386951275056201820;
pub const EU_MASTER_R_ID: u64 = 1386951316143734814;
pub const EU_MASTER_ELITE_R_ID: u64 = 1386951327711494204;
pub const EU_GRANDMASTER_R_ID: u64 = 1386951360594837544;
/// Discord role ids of the runner and admin roles on the main server.
pub const RUNNER_R_ID: u64 = 1386951114225746040;
pub const ADMIN_R_ID: u64 = 1386951155052974141;
/// Discord channel ids of the main server.
pub const DASHBOARD_TC_ID: u64 = 1385894822992281701;
pub const CHAT_TC_ID: u64 = 1388643261543088208;
pub const QUEUE_TC_ID: u64 = 1385893666010300436;
pub const RED_VC_ID: u64 = 1385464431185494086;
pub const BLU_VC_ID: u64 = 1385464563448680578;

/// A player's rank, lowest first.
#[derive(Debug, Clone, Copy, PartialEq, Eq)]
pub enum Rank {
    Beginner,
    Novice,
    Apprentice,
    Journeyman,
    Master,
    MasterElite,
    Grandmaster,
}

/// Position of a rank on the ladder, from 0 (Beginner).
pub open spec fn rank_ordinal(r: Rank) -> int {
    match r {
        Rank::Beginner => 0,
        Rank::Novice => 1,
        Rank::Apprentice => 2,
        Rank::Journeyman => 3,
        Rank::Master => 4,
        Rank::MasterElite => 5,
        Rank::Grandmaster => 6,
    }
}

impl Rank {
    /// The ELO a rank stands for.
    pub open spec fn spec_elo(&self) -> u32 {
        match *self {
            Rank::Beginner => 10,
            Rank::Novice => 30,
            Rank::Apprentice => 40,
            Rank::Journeyman => 50,
            Rank::Master => 65,
            Rank::MasterElite => 90,
            Rank::Grandmaster => 95,
        }
    }

    /// The Discord role of the rank on the main server.
    pub fn id_hardcoded(&self) -> (r: u64)
        ensures
            r == match *self {
                Rank::Beginner => EU_BEGINNER_R_ID,
                Rank::Novice => EU_NOVICE_R_ID,
                Rank::Apprentice => EU_APPRENTICE_R_ID,
                Rank::Journeyman => EU_JOURNEYMAN_R_ID,
                Rank::Master => EU_MASTER_R_ID,
                Rank::MasterElite => EU_MASTER_ELITE_R_ID,
                Rank::Grandmaster => EU_GRANDMASTER_R_ID,
            },
    {
        match self {
            Rank::Beginner => EU_BEGINNER_R_ID,
            Rank::Novice => EU_NOVICE_R_ID,
            Rank::Apprentice => EU_APPRENTICE_R_ID,
            Rank::Journeyman => EU_JOURNEYMAN_R_ID,
            Rank::Master => EU_MASTER_R_ID,
            Rank::MasterElite => EU_MASTER_ELITE_R_ID,
            Rank::Grandmaster => EU_GRANDMASTER_R_ID,
        }
    }

    /// The display name of the rank.
    pub fn name(&self) -> (r: &'static str)
        ensures
            r@ == match *self {
                Rank::Beginner => "Beginner"@,
                Rank::Novice => "Novice"@,
                Rank::Apprentice => "Apprentice"@,
                Rank::Journeyman => "Journeyman"@,
                Rank::Master => "Master"@,
                Rank::MasterElite => "Master Elite"@,
                Rank::Grandmaster => "Grandmaster"@,
            },
    {
        match self {
            Rank::Beginner => "Beginner",
            Rank::Novice => "Novice",
            Rank::Apprentice => "Apprentice",
            Rank::Journeyman => "Journeyman",
            Rank::Master => "Master",
            Rank::MasterElite => "Master Elite",
            Rank::Grandmaster => "Grandmaster",
        }
    }

    /// The ELO a rank stands for.
    pub fn elo(&self) -> (r: u32)
        ensures
            r == self.spec_elo(),
    {
        match self {
            Rank::Beginner => 10,
            Rank::Novice => 30,
            Rank::Apprentice => 40,
            Rank::Journeyman => 50,
            Rank::Master => 65,
            Rank::MasterElite => 90,
            Rank::Grandmaster => 95,
        }
    }
}

/// A higher rank always stands for a higher ELO.
pub proof fn lemma_rank_elo_increasing(a: Rank, b: Rank)
    requires
        rank_ordinal(a) < rank_ordinal(b),
    ensures
        a.spec_elo() < b.spec_elo(),
{
}

} // verus!
