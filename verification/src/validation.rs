//! The rules that a task's fields have to meet before it is posted.
//!
//! Every length here is a number of characters, not of bytes: a title
//! of 100 characters passes whatever its characters are. What a text
//! takes when stored is not a matter of these rules.

use crate::error::ErrorCode;
use crate::error::Failure;
use crate::limits::MAX_DESCRIPTION_LENGTH;
use crate::limits::MAX_SKILLS;
use crate::limits::MAX_SKILL_LENGTH;
use crate::limits::MAX_TASK_DURATION;
use crate::limits::MAX_TASK_ID_LENGTH;
use crate::limits::MAX_TITLE_LENGTH;
use crate::limits::MINIMUM_BUDGET;
use crate::platform::unix_time;
use vstd::prelude::*;

verus! {

/// The first rule that the texts and the budget break, if any: the
/// identifier has 1 to 32 characters, the title 1 to 100, the
/// description at most 2000, and the budget is at least the minimum.
pub open spec fn text_fault(
    task_id: Seq<char>,
    title: Seq<char>,
    description: Seq<char>,
    budget: nat,
) -> Option<ErrorCode> {
    if task_id.len() == 0 || task_id.len() > MAX_TASK_ID_LENGTH {
        Some(ErrorCode::InvalidTaskId)
    } else if title.len() == 0 || title.len() > MAX_TITLE_LENGTH {
        Some(ErrorCode::InvalidTitle)
    } else if description.len() > MAX_DESCRIPTION_LENGTH {
        Some(ErrorCode::InvalidDescription)
    } else if budget < MINIMUM_BUDGET {
        Some(ErrorCode::BudgetTooLow)
    } else {
        None
    }
}

/// A skill tag has 1 to 50 characters.
pub open spec fn skill_ok(skill: Seq<char>) -> bool {
    1 <= skill.len() <= MAX_SKILL_LENGTH
}

/// The first rule that the deadline and the skills break at the time
/// `now`, if any: the deadline lies after `now` and at most 90 days
/// after it, there are at most 10 skills, and every skill is a proper
/// tag. Where `now` is so late that the time 90 days after it does not
/// fit 64 bits, the fault is `ArithmeticOverflow`.
pub open spec fn terms_fault(deadline: int, required_skills: Seq<Seq<char>>, now: int) -> Option<
    ErrorCode,
> {
    if now + MAX_TASK_DURATION > i64::MAX {
        Some(ErrorCode::ArithmeticOverflow)
    } else if deadline <= now || deadline > now + MAX_TASK_DURATION {
        Some(ErrorCode::InvalidDeadline)
    } else if required_skills.len() > MAX_SKILLS {
        Some(ErrorCode::TooManySkills)
    } else if exists|i: int|
        0 <= i < required_skills.len() && !skill_ok(#[trigger] required_skills[i]) {
        Some(ErrorCode::InvalidSkill)
    } else {
        None
    }
}

/// The first rule that a task's fields break at the time `now`, if
/// any: the texts and the budget are looked at first, then the
/// deadline and the skills.
pub open spec fn input_fault(
    task_id: Seq<char>,
    title: Seq<char>,
    description: Seq<char>,
    budget: nat,
    deadline: int,
    required_skills: Seq<Seq<char>>,
    now: int,
) -> Option<ErrorCode> {
    match text_fault(task_id, title, description, budget) {
        Some(code) => Some(code),
        None => terms_fault(deadline, required_skills, now),
    }
}

/// Checks the texts and the budget of a task. Fails with the first
/// rule broken.
pub fn validate_task_text(task_id: &str, title: &str, description: &str, budget: u64) -> (checked:
    Result<(), ErrorCode>)
    ensures
        match checked {
            Ok(_) => text_fault(task_id@, title@, description@, budget as nat) is None,
            Err(code) => text_fault(task_id@, title@, description@, budget as nat) == Some(code),
        },
{
    let id_length: usize = task_id.unicode_len();
    if id_length == 0 || id_length > MAX_TASK_ID_LENGTH {
        return Err(ErrorCode::InvalidTaskId);
    }
    let title_length: usize = title.unicode_len();
    if title_length == 0 || title_length > MAX_TITLE_LENGTH {
        return Err(ErrorCode::InvalidTitle);
    }
    if description.unicode_len() > MAX_DESCRIPTION_LENGTH {
        return Err(ErrorCode::InvalidDescription);
    }
    if budget < MINIMUM_BUDGET {
        return Err(ErrorCode::BudgetTooLow);
    }
    Ok(())
}

/// Checks the deadline and the skills of a task against the time
/// `now`. Fails with the first rule broken.
pub fn validate_task_terms(deadline: i64, required_skills: &[String], now: i64) -> (checked: Result<
    (),
    ErrorCode,
>)
    ensures
        match checked {
            Ok(_) => terms_fault(deadline as int, required_skills.deep_view(), now as int) is None,
            Err(code) => terms_fault(deadline as int, required_skills.deep_view(), now as int)
                == Some(code),
        },
{
    let max_deadline: i64 = match now.checked_add(MAX_TASK_DURATION) {
        Some(latest) => latest,
        None => { return Err(ErrorCode::ArithmeticOverflow); },
    };
    if deadline <= now || deadline > max_deadline {
        return Err(ErrorCode::InvalidDeadline);
    }
    if required_skills.len() > MAX_SKILLS {
        return Err(ErrorCode::TooManySkills);
    }
    let mut index: usize = 0;
    while index < required_skills.len()
        invariant
            index <= required_skills.len(),
            now + MAX_TASK_DURATION <= i64::MAX,
            now < deadline <= now + MAX_TASK_DURATION,
            required_skills.len() <= MAX_SKILLS,
            forall|i: int|
                0 <= i < index ==> skill_ok(#[trigger] required_skills.deep_view()[i]),
        decreases required_skills.len() - index,
    {
        let length: usize = required_skills[index].as_str().unicode_len();
        if length == 0 || length > MAX_SKILL_LENGTH {
            assert(!skill_ok(required_skills.deep_view()[index as int]));
            return Err(ErrorCode::InvalidSkill);
        }
        index = index + 1;
    }
    Ok(())
}

/// Checks all fields of a task against the time `now`. Fails with the
/// first rule broken.
pub fn validate_task_inputs_at(
    task_id: &str,
    title: &str,
    description: &str,
    budget: u64,
    deadline: i64,
    required_skills: &[String],
    now: i64,
) -> (checked: Result<(), ErrorCode>)
    ensures
        match checked {
            Ok(_) => input_fault(
                task_id@,
                title@,
                description@,
                budget as nat,
                deadline as int,
                required_skills.deep_view(),
                now as int,
            ) is None,
            Err(code) => input_fault(
                task_id@,
                title@,
                description@,
                budget as nat,
                deadline as int,
                required_skills.deep_view(),
                now as int,
            ) == Some(code),
        },
{
    match validate_task_text(task_id, title, description, budget) {
        Ok(_) => validate_task_terms(deadline, required_skills, now),
        Err(code) => Err(code),
    }
}

/// Checks all fields of a task against the clock, and answers with the
/// time that was read.
///
/// The texts and the budget are checked before the clock is read, so a
/// fault in them is reported whatever the clock says. After that the
/// answer depends on the clock: its refusal is handed on, and
/// otherwise the answer is that of `validate_task_inputs_at` at the
/// time it gave.
pub fn validate_task_inputs(
    task_id: &str,
    title: &str,
    description: &str,
    budget: u64,
    deadline: i64,
    required_skills: &[String],
) -> (checked: Result<i64, Failure>)
    ensures
        text_fault(task_id@, title@, description@, budget as nat) matches Some(code)
            ==> checked == Err::<i64, Failure>(Failure::Rule(code)),
        match checked {
            Ok(now) => input_fault(
                task_id@,
                title@,
                description@,
                budget as nat,
                deadline as int,
                required_skills.deep_view(),
                now as int,
            ) is None,
            Err(Failure::Rule(code)) => exists|now: i64|
                input_fault(
                    task_id@,
                    title@,
                    description@,
                    budget as nat,
                    deadline as int,
                    required_skills.deep_view(),
                    now as int,
                ) == Some(code),
            Err(Failure::Clock(_)) => text_fault(
                task_id@,
                title@,
                description@,
                budget as nat,
            ) is None,
            Err(_) => false,
        },
{
    match validate_task_text(task_id, title, description, budget) {
        Ok(_) => {},
        Err(code) => {
            assert(input_fault(
                task_id@,
                title@,
                description@,
                budget as nat,
                deadline as int,
                required_skills.deep_view(),
                0,
            ) == Some(code));
            return Err(Failure::Rule(code));
        },
    }
    let now: i64 = match unix_time() {
        Ok(time) => time,
        Err(refusal) => { return Err(Failure::Clock(refusal)); },
    };
    match validate_task_inputs_at(
        task_id,
        title,
        description,
        budget,
        deadline,
        required_skills,
        now,
    ) {
        Ok(_) => Ok(now),
        Err(code) => Err(Failure::Rule(code)),
    }
}

} // verus!
