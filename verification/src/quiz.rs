//! A multiple-choice quiz: its data, and the rules of entering and playing one.

use crate::input::{flag, from_str_radix, parse_flag, trim, trimmed, unsigned_decimal};
use rand::seq::SliceRandom;
use vstd::prelude::*;

verus! {

/// How many questions one round asks.
pub const QUESTIONS_PER_ROUND: usize = 3;

/// How many answers each question offers.
pub const ANSWERS_SIZE: usize = 4;

/// The questions of a quiz.
#[derive(Debug)]
pub struct Quiz {
    pub quiz: Vec<QuizItem>,
}

/// One question with the answers it offers.
#[derive(Debug)]
pub struct QuizItem {
    pub question: String,
    pub answers: [Answer; ANSWERS_SIZE],
}

/// One offered answer, and whether it is a correct one.
#[derive(Debug)]
pub struct Answer {
    pub answer: String,
    pub is_correct: bool,
}

/// Why a quiz cannot be played.
#[derive(Debug, PartialEq, Eq, Structural)]
pub enum QuizError {
    /// The quiz holds `found` questions, fewer than the `needed` of one round.
    TooFewQuestions { needed: usize, found: usize },
}

impl Quiz {
    /// Whether the quiz holds enough questions for one round.
    pub open spec fn playable(&self) -> bool {
        self.quiz@.len() >= QUESTIONS_PER_ROUND
    }

    /// Hands the quiz back where it can be played, and says how many
    /// questions it holds where it cannot.
    pub fn checked(self) -> (r: Result<Quiz, QuizError>)
        ensures
            self.playable() ==> r == Ok::<Quiz, QuizError>(self),
            !self.playable() ==> r == Err::<Quiz, QuizError>(
                QuizError::TooFewQuestions {
                    needed: QUESTIONS_PER_ROUND,
                    found: self.quiz@.len() as usize,
                },
            ),
    {
        if self.quiz.len() < QUESTIONS_PER_ROUND {
            Err(QuizError::TooFewQuestions { needed: QUESTIONS_PER_ROUND, found: self.quiz.len() })
        } else {
            Ok(self)
        }
    }
}

/// What a typed line says as the choice of an answer.
#[derive(Debug, PartialEq, Eq, Structural)]
pub enum Choice {
    /// The answer at this position, which the question offers.
    Answer(u32),
    /// A number, but no position of an offered answer.
    OutOfRange,
    /// No number.
    Unreadable,
}

/// The choice that a parsed number stands for.
pub open spec fn choice_of(parsed: Option<u32>) -> Choice {
    match parsed {
        Some(n) => if n < ANSWERS_SIZE {
            Choice::Answer(n)
        } else {
            Choice::OutOfRange
        },
        None => Choice::Unreadable,
    }
}

/// The choice that a parsed number stands for.
pub fn classify(parsed: Option<u32>) -> (r: Choice)
    ensures
        r == choice_of(parsed),
{
    match parsed {
        Some(n) => if (n as usize) < ANSWERS_SIZE {
            Choice::Answer(n)
        } else {
            Choice::OutOfRange
        },
        None => Choice::Unreadable,
    }
}

/// The choice that the line `line` makes: the number in base ten that the
/// line holds between the white space at its ends, taken as a position.
pub fn read_choice(line: &str) -> (r: Choice)
    ensures
        r == choice_of(unsigned_decimal(trimmed(line@))),
{
    classify(from_str_radix(trim(line), 10))
}

/// Whether the line `line` holds a flag between the white space at its ends,
/// and which.
pub fn read_flag(line: &str) -> (r: Option<bool>)
    ensures
        r == flag(trimmed(line@)),
{
    parse_flag(trim(line))
}

/// Whether the line `line` ends the entering of questions: it holds the word
/// `exit` between the white space at its ends.
pub fn is_exit(line: &str) -> (r: bool)
    ensures
        r == (trimmed(line@) == "exit"@),
{
    let word = trim(line).to_owned();
    let exit = "exit".to_owned();
    word == exit
}

/// Whether `picked` holds elements of `items` taken at positions of which
/// none occurs twice.
pub open spec fn picked_from(picked: Seq<&QuizItem>, items: Seq<QuizItem>) -> bool {
    exists|at: Seq<int>|
        #![trigger at.len()]
        at.len() == picked.len() && at.no_duplicates() && forall|k: int|
            0 <= k < picked.len() ==> 0 <= #[trigger] at[k] < items.len() && *picked[k]
                == items[at[k]]
}

/// `SliceRandom::choose_multiple` of the crate `rand`, drawing from the
/// thread's generator and collected into a vector. Which elements come back
/// and in what order is left to chance; what holds of every outcome is that
/// they are `amount` elements, or all where there are fewer, taken at
/// positions of which none occurs twice.
#[verifier::external_body]
fn choose_multiple(items: &Vec<QuizItem>, amount: usize) -> (picked: Vec<&QuizItem>)
    ensures
        picked@.len() == if amount <= items@.len() {
            amount as nat
        } else {
            items@.len()
        },
        picked_from(picked@, items@),
{
    items.choose_multiple(&mut rand::thread_rng(), amount).collect()
}

/// What the player is told after a line.
#[derive(Debug, PartialEq, Eq, Structural)]
pub enum Reply {
    /// The chosen answer is a correct one.
    Correct,
    /// The chosen answer is not a correct one.
    Incorrect,
    /// The line chose no offered answer; the question stands.
    OutOfRange,
    /// The line held no number; the question stands.
    Unreadable,
}

/// One round of play: the questions drawn for it, how many of them have been
/// answered, and how many of those correctly.
pub struct Round<'a> {
    pub questions: Vec<&'a QuizItem>,
    pub asked: usize,
    pub score: usize,
}

impl<'a> Round<'a> {
    /// No more correct answers than answers, and no more answers than
    /// questions.
    pub open spec fn wf(&self) -> bool {
        self.score <= self.asked <= self.questions@.len()
    }

    /// Whether every question has been answered.
    pub open spec fn over(&self) -> bool {
        self.asked >= self.questions@.len()
    }

    /// What the player is told for the choice `choice` at the question that
    /// stands.
    pub open spec fn reply(&self, choice: Choice) -> Reply
        recommends
            self.wf(),
            !self.over(),
    {
        match choice {
            Choice::Answer(n) => if self.questions@[self.asked as int].answers@[n as int].is_correct {
                Reply::Correct
            } else {
                Reply::Incorrect
            },
            Choice::OutOfRange => Reply::OutOfRange,
            Choice::Unreadable => Reply::Unreadable,
        }
    }

    /// A round over the questions `questions`, none of them answered yet.
    pub fn with_questions(questions: Vec<&'a QuizItem>) -> (r: Round<'a>)
        ensures
            r.wf(),
            r.questions == questions,
            r.asked == 0,
            r.score == 0,
    {
        Round { questions, asked: 0, score: 0 }
    }

    /// A round over questions drawn from `quiz` by chance: as many as one
    /// round asks, or all where the quiz holds fewer, no question twice.
    pub fn start(quiz: &'a Quiz) -> (r: Round<'a>)
        ensures
            r.wf(),
            r.asked == 0,
            r.score == 0,
            r.questions@.len() == if quiz.playable() {
                QUESTIONS_PER_ROUND as nat
            } else {
                quiz.quiz@.len()
            },
            picked_from(r.questions@, quiz.quiz@),
    {
        Round::with_questions(choose_multiple(&quiz.quiz, QUESTIONS_PER_ROUND))
    }

    /// The question that stands, or `None` where the round is over.
    pub fn current(&self) -> (r: Option<&'a QuizItem>)
        requires
            self.wf(),
        ensures
            self.over() ==> r is None,
            !self.over() ==> r == Some(self.questions@[self.asked as int]),
    {
        if self.asked < self.questions.len() {
            Some(self.questions[self.asked])
        } else {
            None
        }
    }

    /// Takes the choice `choice` for the question that stands. A choice of an
    /// offered answer passes on to the next question and counts where the
    /// answer is a correct one; any other choice changes nothing.
    pub fn answer_choice(&mut self, choice: Choice) -> (r: Reply)
        requires
            old(self).wf(),
            !old(self).over(),
            choice matches Choice::Answer(n) ==> n < ANSWERS_SIZE,
        ensures
            final(self).wf(),
            r == old(self).reply(choice),
            final(self).questions == old(self).questions,
            final(self).asked == if choice is Answer {
                old(self).asked + 1
            } else {
                old(self).asked as int
            },
            final(self).score == if r == Reply::Correct {
                old(self).score + 1
            } else {
                old(self).score as int
            },
    {
        match choice {
            Choice::Answer(n) => {
                let correct = self.questions[self.asked].answers[n as usize].is_correct;
                assert(self.asked < self.questions.len());
                self.asked += 1;
                if correct {
                    self.score += 1;
                    Reply::Correct
                } else {
                    Reply::Incorrect
                }
            },
            Choice::OutOfRange => Reply::OutOfRange,
            Choice::Unreadable => Reply::Unreadable,
        }
    }

    /// Takes the line `line` as the player's choice for the question that
    /// stands.
    pub fn answer(&mut self, line: &str) -> (r: Reply)
        requires
            old(self).wf(),
            !old(self).over(),
        ensures
            final(self).wf(),
            r == old(self).reply(choice_of(unsigned_decimal(trimmed(line@)))),
            final(self).questions == old(self).questions,
            final(self).asked == if r == Reply::Correct || r == Reply::Incorrect {
                old(self).asked + 1
            } else {
                old(self).asked as int
            },
            final(self).score == if r == Reply::Correct {
                old(self).score + 1
            } else {
                old(self).score as int
            },
    {
        let choice = read_choice(line);
        self.answer_choice(choice)
    }
}

/// A question that is being entered: its text, and the answers given so far.
pub struct Draft {
    pub question: String,
    pub answers: Vec<Answer>,
}

impl Draft {
    /// No more answers than a question offers.
    pub open spec fn wf(&self) -> bool {
        self.answers@.len() <= ANSWERS_SIZE
    }

    /// Whether every answer has been given.
    pub open spec fn complete(&self) -> bool {
        self.answers@.len() == ANSWERS_SIZE
    }

    /// The question `question` with no answer yet.
    pub fn new(question: String) -> (r: Draft)
        ensures
            r.wf(),
            r.question == question,
            r.answers@.len() == 0,
    {
        Draft { question, answers: Vec::new() }
    }

    /// Whether every answer has been given.
    pub fn is_complete(&self) -> (r: bool)
        ensures
            r == self.complete(),
    {
        self.answers.len() == ANSWERS_SIZE
    }

    /// Adds the answer `answer` behind those given so far.
    pub fn add_answer(&mut self, answer: String, is_correct: bool)
        requires
            old(self).wf(),
            !old(self).complete(),
        ensures
            final(self).wf(),
            final(self).question == old(self).question,
            final(self).answers@ == old(self).answers@.push(Answer { answer, is_correct }),
    {
        self.answers.push(Answer { answer, is_correct });
    }

    /// The finished question, with the answers in the order they were given.
    pub fn finish(self) -> (r: QuizItem)
        requires
            self.complete(),
        ensures
            r.question == self.question,
            r.answers@ == self.answers@,
    {
        let Draft { question, mut answers } = self;
        let ghost given = answers@;
        let fourth = answers.pop().unwrap();
        let third = answers.pop().unwrap();
        let second = answers.pop().unwrap();
        let first = answers.pop().unwrap();
        let answers = [first, second, third, fourth];
        assert(answers@ =~= given);
        QuizItem { question, answers }
    }
}

impl Quiz {
    /// A quiz without questions.
    pub fn new() -> (r: Quiz)
        ensures
            r.quiz@.len() == 0,
    {
        Quiz { quiz: Vec::new() }
    }

    /// Adds the question `item` behind those the quiz holds.
    pub fn add(&mut self, item: QuizItem)
        ensures
            final(self).quiz@ == old(self).quiz@.push(item),
    {
        self.quiz.push(item);
    }
}

} // verus!
