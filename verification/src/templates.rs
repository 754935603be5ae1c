//! Note templates offered when a new document is created.

use vstd::prelude::*;
use vstd::string::StringExecFns;

verus! {

/// Template for the initial content of a new note.
#[derive(Debug, Clone, Copy, PartialEq, Eq, Structural)]
pub enum Template {
    Empty,
    DailyNote,
    Meeting,
}

/// Display name of a template, as shown in the template picker.
pub open spec fn template_name(t: Template) -> Seq<char> {
    match t {
        Template::Empty => "Empty"@,
        Template::DailyNote => "Daily Note"@,
        Template::Meeting => "Meeting"@,
    }
}

/// Initial note body generated by a template; `date` is the current day,
/// already formatted, since this crate does not read the clock.
pub open spec fn template_content(t: Template, date: Seq<char>) -> Seq<char> {
    match t {
        Template::Empty => Seq::<char>::empty(),
        Template::DailyNote => "# "@ + date + "\n\n"@,
        Template::Meeting => "## Participants\n\n\n## Notes\n\n"@,
    }
}

/// The template at a picker position.
pub open spec fn template_at(i: int) -> Template {
    if i == 0 {
        Template::Empty
    } else if i == 1 {
        Template::DailyNote
    } else {
        Template::Meeting
    }
}

impl Template {
    pub fn name(&self) -> (r: &'static str)
        ensures
            r@ == template_name(*self),
    {
        match self {
            Template::Empty => "Empty",
            Template::DailyNote => "Daily Note",
            Template::Meeting => "Meeting",
        }
    }

    /// Generate template content for the given (pre-formatted) date.
    pub fn content(&self, date: &str) -> (r: String)
        ensures
            r@ == template_content(*self, date@),
    {
        match self {
            Template::Empty => String::new(),
            Template::DailyNote => {
                let mut s = String::from_str("# ");
                s.append(date);
                s.append("\n\n");
                s
            },
            Template::Meeting => String::from_str("## Participants\n\n\n## Notes\n\n"),
        }
    }

    /// Every template, in picker order.
    pub fn all() -> (r: Vec<Template>)
        ensures
            r@ == seq![Template::Empty, Template::DailyNote, Template::Meeting],
    {
        let mut v: Vec<Template> = Vec::new();
        v.push(Template::Empty);
        v.push(Template::DailyNote);
        v.push(Template::Meeting);
        proof {
            assert(v@ =~= seq![Template::Empty, Template::DailyNote, Template::Meeting]);
        }
        v
    }
}

} // verus!
