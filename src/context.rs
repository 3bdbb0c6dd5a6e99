//! The plant-care context layer: the recommendations that a context text
//! suggests, and the handle of a knowledge workspace.

use crate::cultivation::CultivationRecord;
use crate::error::DatabaseError;
use crate::species::Species;
use vstd::prelude::*;

verus! {

/// Whether `needle` occurs in `hay` starting at position `i`.
pub open spec fn occurs_at(hay: Seq<char>, needle: Seq<char>, i: int) -> bool {
    0 <= i && i + needle.len() <= hay.len() && hay.subrange(i, i + needle.len()) == needle
}

/// Whether `needle` occurs anywhere in `hay`.
pub open spec fn has_text(hay: Seq<char>, needle: Seq<char>) -> bool {
    exists|i: int| occurs_at(hay, needle, i)
}

fn chars_of(s: &str) -> (r: Vec<char>)
    ensures
        r@ == s@,
{
    let n = s.unicode_len();
    let mut out: Vec<char> = Vec::new();
    let mut i: usize = 0;
    while i < n
        invariant
            n == s@.len(),
            i <= n,
            out@ == s@.subrange(0, i as int),
        decreases n - i,
    {
        out.push(s.get_char(i));
        i = i + 1;
        proof { assert(out@ =~= s@.subrange(0, i as int)); }
    }
    proof { assert(out@ =~= s@); }
    out
}

fn occurs_at_exec(hay: &Vec<char>, needle: &Vec<char>, i: usize) -> (r: bool)
    requires
        i + needle@.len() <= hay@.len(),
        hay@.len() <= usize::MAX,
    ensures
        r == occurs_at(hay@, needle@, i as int),
{
    let mut k: usize = 0;
    while k < needle.len()
        invariant
            i + needle@.len() <= hay@.len(),
            hay@.len() <= usize::MAX,
            k <= needle@.len(),
            forall|m: int| 0 <= m < k ==> hay@[i + m] == needle@[m],
        decreases needle@.len() - k,
    {
        if hay[i + k] != needle[k] {
            proof {
                assert(hay@.subrange(i as int, i + needle@.len())[k as int] != needle@[k as int]);
            }
            return false;
        }
        k = k + 1;
    }
    proof { assert(hay@.subrange(i as int, i + needle@.len()) =~= needle@); }
    true
}

/// Whether `needle` occurs in `hay`.
pub fn text_contains(hay: &str, needle: &str) -> (r: bool)
    ensures
        r == has_text(hay@, needle@),
{
    let h = chars_of(hay);
    let n = chars_of(needle);
    if n.len() > h.len() {
        return false;
    }
    let last = h.len() - n.len();
    let mut i: usize = 0;
    while i < last
        invariant
            last == h@.len() - n@.len(),
            h@.len() <= usize::MAX,
            i <= last,
            h@ == hay@,
            n@ == needle@,
            forall|j: int| 0 <= j < i ==> !occurs_at(hay@, needle@, j),
        decreases last - i,
    {
        if occurs_at_exec(&h, &n, i) {
            return true;
        }
        i = i + 1;
    }
    if occurs_at_exec(&h, &n, last) {
        return true;
    }
    proof {
        assert forall|j: int| !occurs_at(hay@, needle@, j) by {
            if 0 <= j && j + needle@.len() <= hay@.len() {
                assert(j < i || j == last);
            }
        }
    }
    false
}

pub const NUTRIENT_ADVICE: &'static str = "Consider adjusting nutrient levels";

pub const WATERING_ADVICE: &'static str = "Review watering schedule";

pub const LIGHTING_ADVICE: &'static str = "Adjust lighting conditions";

pub const PH_ADVICE: &'static str = "Check and adjust soil/water pH levels";

pub const HARVEST_ADVICE: &'static str = "Consider harvest timing evaluation";

pub const GENERAL_ADVICE: &'static str = "Review cultivation data and environmental conditions";

/// The advice for one rule: present when the rule's condition holds.
pub open spec fn advice_if(cond: bool, advice: &str) -> Seq<Seq<char>> {
    if cond { seq![advice@] } else { seq![] }
}

/// The recommendations that a context text suggests, in a fixed order: nutrient
/// levels (it speaks of a nutrient deficiency), watering (of water, and of over
/// or under), lighting (of light stress), pH (of pH), harvest timing (of a
/// ready harvest); general advice when none of these holds.
pub open spec fn recommendations_for(c: Seq<char>) -> Seq<Seq<char>> {
    let found = advice_if(has_text(c, "nutrient"@) && has_text(c, "deficiency"@), NUTRIENT_ADVICE)
        + advice_if(has_text(c, "water"@) && (has_text(c, "over"@) || has_text(c, "under"@)), WATERING_ADVICE)
        + advice_if(has_text(c, "light"@) && has_text(c, "stress"@), LIGHTING_ADVICE)
        + advice_if(has_text(c, "pH"@), PH_ADVICE)
        + advice_if(has_text(c, "harvest"@) && has_text(c, "ready"@), HARVEST_ADVICE);
    if found.len() == 0 { seq![GENERAL_ADVICE@] } else { found }
}

pub open spec fn texts(v: Seq<String>) -> Seq<Seq<char>> {
    v.map_values(|s: String| s@)
}

fn push_advice(out: &mut Vec<String>, cond: bool, advice: &str)
    ensures
        texts(final(out)@) == texts(old(out)@) + advice_if(cond, advice),
{
    if cond {
        out.push(String::from_str(advice));
        proof { assert(texts(final(out)@) =~= texts(old(out)@) + advice_if(cond, advice)); }
    } else {
        proof { assert(texts(final(out)@) =~= texts(old(out)@) + advice_if(cond, advice)); }
    }
}

/// The recommendations that a context text suggests; see `recommendations_for`.
pub fn extract_recommendations(context: &str) -> (r: Vec<String>)
    ensures
        texts(r@) == recommendations_for(context@),
{
    let mut out: Vec<String> = Vec::new();
    let nutrient = text_contains(context, "nutrient") && text_contains(context, "deficiency");
    push_advice(&mut out, nutrient, NUTRIENT_ADVICE);
    let water = text_contains(context, "water")
        && (text_contains(context, "over") || text_contains(context, "under"));
    push_advice(&mut out, water, WATERING_ADVICE);
    let light = text_contains(context, "light") && text_contains(context, "stress");
    push_advice(&mut out, light, LIGHTING_ADVICE);
    let ph = text_contains(context, "pH");
    push_advice(&mut out, ph, PH_ADVICE);
    let harvest = text_contains(context, "harvest") && text_contains(context, "ready");
    push_advice(&mut out, harvest, HARVEST_ADVICE);
    proof { assert(texts(out@) =~= texts(seq![]) + advice_if(nutrient, NUTRIENT_ADVICE) + advice_if(water, WATERING_ADVICE) + advice_if(light, LIGHTING_ADVICE) + advice_if(ph, PH_ADVICE) + advice_if(harvest, HARVEST_ADVICE)); }
    if out.len() == 0 {
        out.push(String::from_str(GENERAL_ADVICE));
        proof { assert(texts(out@) =~= seq![GENERAL_ADVICE@]); }
    }
    out
}

pub const KNOWLEDGE_UNAVAILABLE: &'static str = "ContextLite feature not enabled for query: ";

/// The handle of a plant-knowledge workspace. No knowledge service is attached:
/// queries are answered with a notice and indexing does nothing.
#[derive(Debug, Clone)]
pub struct BotanicalContext {
    pub workspace_id: String,
}

impl BotanicalContext {
    /// A handle on the workspace `workspace_id`; the service address and token
    /// are not used while no service is attached.
    pub fn new(_base_url: &str, _auth_token: &str, workspace_id: &str) -> (r: Result<BotanicalContext, DatabaseError>)
        ensures
            r is Ok && r->Ok_0.workspace_id@ == workspace_id@,
    {
        Ok(BotanicalContext { workspace_id: String::from_str(workspace_id) })
    }

    pub fn workspace_id(&self) -> (r: &str)
        ensures
            r@ == self.workspace_id@,
    {
        self.workspace_id.as_str()
    }

    /// Answers a general botanical question; with no service attached the answer
    /// is a notice that names the question.
    pub fn query_botanical_knowledge(&self, query: &str) -> (r: Result<String, DatabaseError>)
        ensures
            r is Ok && r->Ok_0@ == KNOWLEDGE_UNAVAILABLE@ + query@,
    {
        let mut out = String::from_str(KNOWLEDGE_UNAVAILABLE);
        out.append(query);
        Ok(out)
    }

    /// Adds a species and its cultivation records to the workspace; with no
    /// service attached nothing is sent.
    pub fn index_plant_data(&self, _species: &Species, _records: &[CultivationRecord]) -> (r: Result<(), DatabaseError>)
        ensures
            r is Ok,
    {
        Ok(())
    }
}

} // verus!
