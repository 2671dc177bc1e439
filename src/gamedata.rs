//! The static game-data catalog: id-keyed reference rows, loaded once and
//! never changed by the decoders.

use vstd::prelude::*;

verus! {

pub struct Attribute {
    pub id: i32,
    pub name: String,
    pub levels: Vec<(String, String)>,
}

pub struct Beliefs {
    pub name: String,
    pub trait_conflicts: Vec<i32>,
    pub levels: Vec<(String, String)>,
}

pub struct FacetsSpecial {
    pub limit: i32,
    pub msg: String,
}

pub struct Facet {
    pub name: String,
    pub id: i32,
    /// Belief name, and the id of the belief it conflicts with.
    pub belief_conflicts: Vec<(String, i32)>,
    pub levels: Vec<(String, String)>,
    pub limits: Vec<(String, i32)>,
    pub special: FacetsSpecial,
}

pub struct Goal {
    pub id: i32,
    pub name: String,
    pub description: String,
}

pub struct HappinessLevel {
    pub name: String,
    pub threshold: i32,
    pub desc: String,
}

pub struct HealthDescription {
    pub desc: String,
    pub symbol: String,
}

pub struct HealthInfo {
    pub id: i32,
    pub name: String,
    pub color: String,
    pub descriptions: Vec<HealthDescription>,
    pub kind: i32,
}

pub struct KnowledgeTopic {
    pub area: String,
    pub subject: String,
}

pub struct Knowledge {
    pub name: String,
    pub topics: Vec<KnowledgeTopic>,
}

pub struct UnitLabor {
    pub name: String,
    pub id: i32,
    pub skill: i32,
    pub requires_equipment: bool,
    pub excludes: Vec<(String, i32)>,
}

pub struct Need {
    pub id: i32,
    pub name: String,
    pub positive: String,
    pub negative: String,
}

pub struct Profession {
    pub id: i32,
    pub name: String,
    pub is_military: bool,
    pub can_assign_labors: bool,
    pub can_assign_military: bool,
}

pub struct UnitSkill {
    pub name: String,
    pub noun: String,
    pub profession_id: i32,
    pub mood: i32,
}

pub struct SphereName {
    pub name: String,
}

pub struct SubJob {
    pub id: i32,
    pub name: String,
    pub img: String,
}

pub struct UnitJobs {
    pub id: i32,
    pub name: String,
    pub img: String,
    pub sub: Vec<SubJob>,
}

pub struct SubActivity {
    pub id: i32,
    pub name: String,
    pub img: String,
}

pub struct UnitActivities {
    pub id: i32,
    pub name: String,
    pub img: String,
    pub sub: Vec<SubActivity>,
    pub is_military: bool,
}

pub struct UnitOrders {
    pub id: i32,
    pub name: String,
    pub img: String,
}

pub struct UnitMoods {
    pub name: String,
    pub description: String,
    pub color: String,
}

pub struct UnitThoughts {
    pub title: String,
    pub thought: String,
    pub subthoughts_type: i32,
}

pub struct Subthought {
    pub id: i32,
    pub thought: String,
}

pub struct SubThoughts {
    pub id: i32,
    pub placeholder: String,
    pub subthoughts: Vec<Subthought>,
}

pub struct UnitEmotion {
    pub emotion: String,
    pub color: i32,
    pub divider: i32,
}

/// All catalog tables.
pub struct GameData {
    pub attributes: Vec<Attribute>,
    pub beliefs: Vec<Beliefs>,
    pub facets: Vec<Facet>,
    pub goals: Vec<Goal>,
    pub happiness_levels: Vec<HappinessLevel>,
    pub health_info: Vec<HealthInfo>,
    pub knowledge: Vec<Knowledge>,
    pub labors: Vec<UnitLabor>,
    pub needs: Vec<Need>,
    pub professions: Vec<Profession>,
    pub skills: Vec<UnitSkill>,
    pub skill_levels: Vec<(String, String)>,
    pub sphere_names: Vec<(String, String)>,
    pub unit_activities: Vec<UnitActivities>,
    pub unit_emotions: Vec<UnitEmotion>,
    pub unit_jobs: Vec<UnitJobs>,
    pub unit_moods: Vec<UnitMoods>,
    pub unit_orders: Vec<UnitOrders>,
    pub unit_thoughts: Vec<UnitThoughts>,
    pub unit_subthoughts: Vec<SubThoughts>,
}

/// Index of the first profession with id `id` at or after `i`.
pub open spec fn profession_from(rows: Seq<Profession>, i: int, id: i32) -> Option<int>
    decreases rows.len() - i,
{
    if i < 0 || i >= rows.len() {
        None
    } else if rows[i].id == id {
        Some(i)
    } else {
        profession_from(rows, i + 1, id)
    }
}

/// Index of the first goal with id `id` at or after `i`.
pub open spec fn goal_from(rows: Seq<Goal>, i: int, id: i32) -> Option<int>
    decreases rows.len() - i,
{
    if i < 0 || i >= rows.len() {
        None
    } else if rows[i].id == id {
        Some(i)
    } else {
        goal_from(rows, i + 1, id)
    }
}

pub proof fn lemma_goal_from_bound(rows: Seq<Goal>, i: int, id: i32)
    ensures
        goal_from(rows, i, id) matches Some(k) ==> 0 <= k < rows.len(),
    decreases rows.len() - i,
{
    if 0 <= i < rows.len() && rows[i].id != id {
        lemma_goal_from_bound(rows, i + 1, id);
    }
}

impl GameData {
    /// Position of the profession with id `id`.
    pub fn profession_index(&self, id: i32) -> (r: Option<usize>)
        ensures
            r matches Some(k) ==> profession_from(self.professions@, 0, id) == Some(k as int),
            r is None ==> profession_from(self.professions@, 0, id) is None,
    {
        let mut i: usize = 0;
        while i < self.professions.len()
            invariant
                i <= self.professions@.len(),
                profession_from(self.professions@, 0, id) == profession_from(self.professions@, i as int, id),
            decreases self.professions@.len() - i,
        {
            if self.professions[i].id == id {
                return Some(i);
            }
            i = i + 1;
        }
        None
    }

    /// Position of the goal with id `id`.
    pub fn goal_index(&self, id: i32) -> (r: Option<usize>)
        ensures
            r matches Some(k) ==> goal_from(self.goals@, 0, id) == Some(k as int),
            r is None ==> goal_from(self.goals@, 0, id) is None,
    {
        let mut i: usize = 0;
        while i < self.goals.len()
            invariant
                i <= self.goals@.len(),
                goal_from(self.goals@, 0, id) == goal_from(self.goals@, i as int, id),
            decreases self.goals@.len() - i,
        {
            if self.goals[i].id == id {
                return Some(i);
            }
            i = i + 1;
        }
        None
    }

    /// The stress thresholds of the happiness bands, in declaration order.
    pub fn happiness_thresholds(&self) -> (r: Vec<i32>)
        ensures
            r@.len() == self.happiness_levels@.len(),
            forall|k: int| 0 <= k < r@.len() ==> #[trigger] r@[k] == self.happiness_levels@[k].threshold,
    {
        let mut out: Vec<i32> = Vec::new();
        let mut i: usize = 0;
        while i < self.happiness_levels.len()
            invariant
                i <= self.happiness_levels@.len(),
                out@.len() == i,
                forall|k: int| 0 <= k < i ==> #[trigger] out@[k] == self.happiness_levels@[k].threshold,
            decreases self.happiness_levels@.len() - i,
        {
            out.push(self.happiness_levels[i].threshold);
            i = i + 1;
        }
        out
    }
}

} // verus!
