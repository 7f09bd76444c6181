//! User profile: what the user wants from the advisor, and how it should speak.
//!
//! Goals, concerns, advice style and tone shape the system prompt. The
//! onboarding wizard and the profile update are driven by the decisions below;
//! reading the terminal and the profile file is the program's part.

use vstd::prelude::*;
use crate::text::{
    lowercase, own, split_chars, split_on, str_eq, to_chars, to_lowercase, trim, trim_chars,
    from_chars, views,
};

verus! {

/// User profile with personalized settings.
#[derive(Debug, Clone)]
pub struct UserProfile {
    pub version: String,
    pub goals: Vec<String>,
    pub concerns: Vec<String>,
    pub advice_style: AdviceStyle,
    pub tone: Tone,
}

/// How much detail the advice carries.
#[derive(Clone, Copy, Debug, PartialEq, Eq, Structural)]
pub enum AdviceStyle {
    Detailed,
    Summary,
    ActionItems,
}

/// The voice of the advice.
#[derive(Clone, Copy, Debug, PartialEq, Eq, Structural)]
pub enum Tone {
    Friendly,
    Direct,
    Professional,
}

/// The goal recorded when the user names none.
pub const DEFAULT_GOAL: &'static str = "Track spending";

/// The concern recorded when the user names none.
pub const DEFAULT_CONCERN: &'static str = "Reduce unnecessary spending";

impl UserProfile {
    /// Create a default profile: version 1.0, one goal (`Track spending`),
    /// one concern (`Reduce unnecessary spending`), summary advice, friendly tone.
    pub fn default_profile() -> (r: Self)
        ensures
            r.version@ == "1.0"@,
            views(r.goals@) == seq![DEFAULT_GOAL@],
            views(r.concerns@) == seq![DEFAULT_CONCERN@],
            r.advice_style == AdviceStyle::Summary,
            r.tone == Tone::Friendly,
    {
        let mut goals: Vec<String> = Vec::new();
        goals.push(own(DEFAULT_GOAL));
        let mut concerns: Vec<String> = Vec::new();
        concerns.push(own(DEFAULT_CONCERN));
        assert(views(goals@) =~= seq![DEFAULT_GOAL@]);
        assert(views(concerns@) =~= seq![DEFAULT_CONCERN@]);
        UserProfile {
            version: own("1.0"),
            goals,
            concerns,
            advice_style: AdviceStyle::Summary,
            tone: Tone::Friendly,
        }
    }
}

// ============================================================================
// Updating the goals
// ============================================================================

/// Whether a piece of text is not empty.
pub open spec fn nonempty(s: Seq<char>) -> bool {
    s.len() > 0
}

/// The goals that an update line names: the trimmed line split at commas,
/// each piece trimmed, empty pieces dropped.
pub open spec fn goals_in_line(line: Seq<char>) -> Seq<Seq<char>> {
    split_on(trim(line), ',').map_values(|p: Seq<char>| trim(p)).filter(|p: Seq<char>| nonempty(p))
}

/// Whether an update line keeps the current goals: it is blank (the user
/// pressed Enter to keep the current value) or its trimmed, lowercased text
/// is `skip`.
pub open spec fn keeps_goals(line: Seq<char>) -> bool {
    trim(line).len() == 0 || lowercase(trim(line)) == "skip"@
}

/// Apply the answer to the goals question of the profile update: a blank
/// answer or `skip` keeps the current goals; otherwise the goals become the
/// comma-separated goals it names. Returns whether the goals were replaced.
pub fn apply_goals_update(profile: &mut UserProfile, line: &str) -> (replaced: bool)
    ensures
        replaced == !keeps_goals(line@),
        replaced ==> views(final(profile).goals@) == goals_in_line(line@),
        !replaced ==> final(profile).goals@ == old(profile).goals@,
        final(profile).concerns@ == old(profile).concerns@,
        final(profile).version == old(profile).version,
        final(profile).advice_style == old(profile).advice_style,
        final(profile).tone == old(profile).tone,
{
    let chars = to_chars(line);
    let trimmed = trim_chars(chars.as_slice());
    if trimmed.len() == 0 {
        return false;
    }
    let trimmed_str = from_chars(trimmed.as_slice());
    let lower = to_lowercase(trimmed_str.as_str());
    if str_eq(lower.as_str(), "skip") {
        return false;
    }
    let pieces = split_chars(trimmed.as_slice(), ',');
    let ghost pv = pieces@.map_values(|l: Vec<char>| l@);
    let ghost tp = pv.map_values(|p: Seq<char>| trim(p));
    let ghost pred = |p: Seq<char>| nonempty(p);
    let mut goals: Vec<String> = Vec::new();
    let n = pieces.len();
    let mut i: usize = 0;
    while i < n
        invariant
            i <= n,
            n == pieces@.len(),
            pv == pieces@.map_values(|l: Vec<char>| l@),
            tp == pv.map_values(|p: Seq<char>| trim(p)),
            pred == (|p: Seq<char>| nonempty(p)),
            views(goals@) == tp.take(i as int).filter(pred),
        decreases n - i,
    {
        assert(tp.take(i + 1) == tp.take(i as int).push(tp[i as int]));
        proof {
            tp.take(i as int).lemma_filter_push(tp[i as int], pred);
        }
        let piece = trim_chars(pieces[i].as_slice());
        assert(piece@ == tp[i as int]);
        if piece.len() > 0 {
            let ghost before = goals@;
            goals.push(from_chars(piece.as_slice()));
            assert(views(goals@) == views(before).push(piece@));
        }
        i = i + 1;
    }
    assert(tp.take(n as int) == tp);
    profile.goals = goals;
    true
}

// ============================================================================
// Onboarding
// ============================================================================

/// The question the onboarding wizard is asking.
#[derive(Clone, Copy, Debug, PartialEq, Eq, Structural)]
pub enum OnboardingStage {
    Goals,
    Concerns,
    AdviceStyle,
    Tone,
    Complete,
}

/// What the wizard does after an answer.
#[derive(Clone, Copy, Debug, PartialEq, Eq, Structural)]
pub enum OnboardingReply {
    /// Ask the same question again for one more item.
    Again,
    /// The answer was not a valid choice; say so and ask again.
    Invalid,
    /// Move on to the next question (or to saving, once complete).
    Next,
}

/// The onboarding wizard's state: the profile so far and the open question.
pub struct Onboarding {
    pub profile: UserProfile,
    pub stage: OnboardingStage,
}

/// Whether an answer to a list question ends the list: it is empty or, in
/// lowercase, `done` (the answer is given trimmed).
pub open spec fn ends_list(t: Seq<char>) -> bool {
    t.len() == 0 || lowercase(t) == "done"@
}

/// The advice style a menu answer picks: empty or `1` is Summary, `2`
/// Detailed, `3` Action Items.
pub open spec fn style_choice(t: Seq<char>) -> Option<AdviceStyle> {
    if t.len() == 0 || t == "1"@ {
        Some(AdviceStyle::Summary)
    } else if t == "2"@ {
        Some(AdviceStyle::Detailed)
    } else if t == "3"@ {
        Some(AdviceStyle::ActionItems)
    } else {
        None
    }
}

/// The tone a menu answer picks: empty or `1` is Friendly, `2` Direct, `3`
/// Professional.
pub open spec fn tone_choice(t: Seq<char>) -> Option<Tone> {
    if t.len() == 0 || t == "1"@ {
        Some(Tone::Friendly)
    } else if t == "2"@ {
        Some(Tone::Direct)
    } else if t == "3"@ {
        Some(Tone::Professional)
    } else {
        None
    }
}

/// Each menu answer picks its own choice, whatever the answer: the advice
/// style is Summary exactly for an empty answer or `1`, Detailed exactly for
/// `2`, Action Items exactly for `3`; the tone is Friendly, Direct and
/// Professional for the same answers; any other answer picks nothing (and
/// `Onboarding::answer` asks again).
pub proof fn law_menu_answers_pick_their_choice(t: Seq<char>)
    ensures
        style_choice(t) == Some(AdviceStyle::Summary) <==> (t.len() == 0 || t == "1"@),
        style_choice(t) == Some(AdviceStyle::Detailed) <==> t == "2"@,
        style_choice(t) == Some(AdviceStyle::ActionItems) <==> t == "3"@,
        tone_choice(t) == Some(Tone::Friendly) <==> (t.len() == 0 || t == "1"@),
        tone_choice(t) == Some(Tone::Direct) <==> t == "2"@,
        tone_choice(t) == Some(Tone::Professional) <==> t == "3"@,
        style_choice(t) is None <==> !(t.len() == 0 || t == "1"@ || t == "2"@ || t == "3"@),
        tone_choice(t) is None <==> !(t.len() == 0 || t == "1"@ || t == "2"@ || t == "3"@),
{
    reveal_strlit("1");
    reveal_strlit("2");
    reveal_strlit("3");
    assert("1"@ != "2"@ && "1"@ != "3"@ && "2"@ != "3"@) by {
        assert("1"@[0] != "2"@[0] && "1"@[0] != "3"@[0] && "2"@[0] != "3"@[0]);
    }
    assert("1"@.len() == 1 && "2"@.len() == 1 && "3"@.len() == 1);
    if t == "2"@ {
        assert(style_choice(t) == Some(AdviceStyle::Detailed));
    }
    if t == "3"@ {
        assert(style_choice(t) == Some(AdviceStyle::ActionItems));
    }
}

/// A list after its question closes: the default item when it is empty.
pub open spec fn close_list(items: Seq<Seq<char>>, default: Seq<char>) -> Seq<Seq<char>> {
    if items.len() == 0 {
        seq![default]
    } else {
        items
    }
}

/// Whether an answer is empty or `1`, the default menu choice.
pub fn is_empty_or_one(t: &[char]) -> (r: bool)
    ensures
        r == (t@.len() == 0 || t@ == "1"@),
{
    let s = from_chars(t);
    t.len() == 0 || str_eq(s.as_str(), "1")
}

impl Onboarding {
    /// Once its question is answered, a list is never empty: past the goals
    /// question the profile has a goal, past the concerns question a concern.
    pub open spec fn wf(&self) -> bool {
        &&& self.stage != OnboardingStage::Goals ==> self.profile.goals@.len() > 0
        &&& (self.stage != OnboardingStage::Goals && self.stage != OnboardingStage::Concerns)
            ==> self.profile.concerns@.len() > 0
    }

    /// A new wizard: an empty profile (version 1.0, summary advice, friendly
    /// tone) and the goals question open.
    pub fn new() -> (r: Self)
        ensures
            r.wf(),
            r.stage == OnboardingStage::Goals,
            r.profile.version@ == "1.0"@,
            r.profile.goals@.len() == 0,
            r.profile.concerns@.len() == 0,
            r.profile.advice_style == AdviceStyle::Summary,
            r.profile.tone == Tone::Friendly,
    {
        Onboarding {
            profile: UserProfile {
                version: own("1.0"),
                goals: Vec::new(),
                concerns: Vec::new(),
                advice_style: AdviceStyle::Summary,
                tone: Tone::Friendly,
            },
            stage: OnboardingStage::Goals,
        }
    }

    /// Take one answer (a line as typed) to the open question.
    ///
    /// Goals and concerns are collected one per line until an empty line or
    /// `done`; an empty list then gets its default item. The two menus take
    /// `1`, `2`, `3` or an empty line, and ask again on anything else.
    pub fn answer(&mut self, line: &str) -> (reply: OnboardingReply)
        requires
            old(self).stage != OnboardingStage::Complete,
        ensures
            old(self).wf() ==> final(self).wf(),
            final(self).profile.version == old(self).profile.version,
            ({
                let t = trim(line@);
                let o = *old(self);
                let f = *final(self);
                match o.stage {
                    OnboardingStage::Goals => if ends_list(t) {
                        &&& reply == OnboardingReply::Next
                        &&& f.stage == OnboardingStage::Concerns
                        &&& views(f.profile.goals@) == close_list(views(o.profile.goals@), DEFAULT_GOAL@)
                        &&& f.profile.concerns@ == o.profile.concerns@
                    } else {
                        &&& reply == OnboardingReply::Again
                        &&& f.stage == OnboardingStage::Goals
                        &&& views(f.profile.goals@) == views(o.profile.goals@).push(t)
                        &&& f.profile.concerns@ == o.profile.concerns@
                    },
                    OnboardingStage::Concerns => if ends_list(t) {
                        &&& reply == OnboardingReply::Next
                        &&& f.stage == OnboardingStage::AdviceStyle
                        &&& views(f.profile.concerns@) == close_list(
                            views(o.profile.concerns@),
                            DEFAULT_CONCERN@,
                        )
                        &&& f.profile.goals@ == o.profile.goals@
                    } else {
                        &&& reply == OnboardingReply::Again
                        &&& f.stage == OnboardingStage::Concerns
                        &&& views(f.profile.concerns@) == views(o.profile.concerns@).push(t)
                        &&& f.profile.goals@ == o.profile.goals@
                    },
                    OnboardingStage::AdviceStyle => {
                        &&& f.profile.goals@ == o.profile.goals@
                        &&& f.profile.concerns@ == o.profile.concerns@
                        &&& f.profile.tone == o.profile.tone
                        &&& match style_choice(t) {
                            Some(s) => reply == OnboardingReply::Next && f.stage
                                == OnboardingStage::Tone && f.profile.advice_style == s,
                            None => reply == OnboardingReply::Invalid && f.stage
                                == OnboardingStage::AdviceStyle && f.profile.advice_style
                                == o.profile.advice_style,
                        }
                    },
                    _ => {
                        &&& f.profile.goals@ == o.profile.goals@
                        &&& f.profile.concerns@ == o.profile.concerns@
                        &&& f.profile.advice_style == o.profile.advice_style
                        &&& match tone_choice(t) {
                            Some(tn) => reply == OnboardingReply::Next && f.stage
                                == OnboardingStage::Complete && f.profile.tone == tn,
                            None => reply == OnboardingReply::Invalid && f.stage
                                == OnboardingStage::Tone && f.profile.tone == o.profile.tone,
                        }
                    },
                }
            }),
    {
        let chars = to_chars(line);
        let t = trim_chars(chars.as_slice());
        let ts = from_chars(t.as_slice());
        match self.stage {
            OnboardingStage::Goals | OnboardingStage::Concerns => {
                let lower = to_lowercase(ts.as_str());
                let ends = t.len() == 0 || str_eq(lower.as_str(), "done");
                let goals_stage = self.stage == OnboardingStage::Goals;
                if ends {
                    if goals_stage {
                        if self.profile.goals.len() == 0 {
                            self.profile.goals.push(own(DEFAULT_GOAL));
                            assert(views(self.profile.goals@) =~= seq![DEFAULT_GOAL@]);
                        }
                        self.stage = OnboardingStage::Concerns;
                    } else {
                        if self.profile.concerns.len() == 0 {
                            self.profile.concerns.push(own(DEFAULT_CONCERN));
                            assert(views(self.profile.concerns@) =~= seq![DEFAULT_CONCERN@]);
                        }
                        self.stage = OnboardingStage::AdviceStyle;
                    }
                    OnboardingReply::Next
                } else {
                    if goals_stage {
                        let ghost before = self.profile.goals@;
                        self.profile.goals.push(ts);
                        assert(views(self.profile.goals@) == views(before).push(t@));
                    } else {
                        let ghost before = self.profile.concerns@;
                        self.profile.concerns.push(ts);
                        assert(views(self.profile.concerns@) == views(before).push(t@));
                    }
                    OnboardingReply::Again
                }
            },
            OnboardingStage::AdviceStyle => {
                if is_empty_or_one(t.as_slice()) {
                    self.profile.advice_style = AdviceStyle::Summary;
                    self.stage = OnboardingStage::Tone;
                    OnboardingReply::Next
                } else if str_eq(ts.as_str(), "2") {
                    self.profile.advice_style = AdviceStyle::Detailed;
                    self.stage = OnboardingStage::Tone;
                    OnboardingReply::Next
                } else if str_eq(ts.as_str(), "3") {
                    self.profile.advice_style = AdviceStyle::ActionItems;
                    self.stage = OnboardingStage::Tone;
                    OnboardingReply::Next
                } else {
                    OnboardingReply::Invalid
                }
            },
            _ => {
                if is_empty_or_one(t.as_slice()) {
                    self.profile.tone = Tone::Friendly;
                    self.stage = OnboardingStage::Complete;
                    OnboardingReply::Next
                } else if str_eq(ts.as_str(), "2") {
                    self.profile.tone = Tone::Direct;
                    self.stage = OnboardingStage::Complete;
                    OnboardingReply::Next
                } else if str_eq(ts.as_str(), "3") {
                    self.profile.tone = Tone::Professional;
                    self.stage = OnboardingStage::Complete;
                    OnboardingReply::Next
                } else {
                    OnboardingReply::Invalid
                }
            },
        }
    }
}

} // verus!
