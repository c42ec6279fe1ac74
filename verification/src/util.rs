//! How rendered HTML is marked up for Discord: the marks that stand around
//! emphasised, strong, struck-out and code text.

use vstd::prelude::*;
use vstd::string::StringExecFns;

verus! {

/// The mark on either side of emphasised text.
pub open spec fn em_mark() -> Seq<char> {
    seq!['*']
}

/// The mark on either side of strong text.
pub open spec fn strong_mark() -> Seq<char> {
    seq!['*', '*']
}

/// The mark on either side of struck-out text.
pub open spec fn strikeout_mark() -> Seq<char> {
    seq!['-', '-']
}

/// The mark on either side of code.
pub open spec fn code_mark() -> Seq<char> {
    seq!['`', '`', '`']
}

/// Decorates rendered text with Discord's markdown. Links are dropped: their
/// text stays, their targets are neither marked nor collected.
#[derive(Clone)]
pub struct DiscordMarkdownDecorator {
    links: Vec<String>,
}

impl DiscordMarkdownDecorator {
    /// The link targets collected so far; the decorator collects none.
    pub closed spec fn links(&self) -> Seq<String> {
        self.links@
    }

    /// Create a new `DiscordMarkdownDecorator`.
    pub fn new() -> (d: DiscordMarkdownDecorator)
        ensures
            d.links() == Seq::<String>::empty(),
    {
        DiscordMarkdownDecorator { links: Vec::new() }
    }

    /// What stands before a link's text: nothing.
    pub fn decorate_link_start(&mut self, _url: &str) -> (mark: String)
        ensures
            mark@ == Seq::<char>::empty(),
            final(self).links() == old(self).links(),
    {
        String::new()
    }

    /// What stands after a link's text: nothing.
    pub fn decorate_link_end(&mut self) -> (mark: String)
        ensures
            mark@ == Seq::<char>::empty(),
            final(self).links() == old(self).links(),
    {
        String::new()
    }

    /// What stands before emphasised text.
    pub fn decorate_em_start(&mut self) -> (mark: String)
        ensures
            mark@ == em_mark(),
            final(self).links() == old(self).links(),
    {
        proof {
            reveal_strlit("*");
        }
        let mark = String::from_str("*");
        assert(mark@ =~= em_mark());
        mark
    }

    /// What stands after emphasised text.
    pub fn decorate_em_end(&mut self) -> (mark: String)
        ensures
            mark@ == em_mark(),
            final(self).links() == old(self).links(),
    {
        self.decorate_em_start()
    }

    /// What stands before strong text.
    pub fn decorate_strong_start(&mut self) -> (mark: String)
        ensures
            mark@ == strong_mark(),
            final(self).links() == old(self).links(),
    {
        proof {
            reveal_strlit("**");
        }
        let mark = String::from_str("**");
        assert(mark@ =~= strong_mark());
        mark
    }

    /// What stands after strong text.
    pub fn decorate_strong_end(&mut self) -> (mark: String)
        ensures
            mark@ == strong_mark(),
            final(self).links() == old(self).links(),
    {
        self.decorate_strong_start()
    }

    /// What stands before struck-out text.
    pub fn decorate_strikeout_start(&mut self) -> (mark: String)
        ensures
            mark@ == strikeout_mark(),
            final(self).links() == old(self).links(),
    {
        proof {
            reveal_strlit("--");
        }
        let mark = String::from_str("--");
        assert(mark@ =~= strikeout_mark());
        mark
    }

    /// What stands after struck-out text.
    pub fn decorate_strikeout_end(&mut self) -> (mark: String)
        ensures
            mark@ == strikeout_mark(),
            final(self).links() == old(self).links(),
    {
        self.decorate_strikeout_start()
    }

    /// What stands before code.
    pub fn decorate_code_start(&mut self) -> (mark: String)
        ensures
            mark@ == code_mark(),
            final(self).links() == old(self).links(),
    {
        proof {
            reveal_strlit("```");
        }
        let mark = String::from_str("```");
        assert(mark@ =~= code_mark());
        mark
    }

    /// What stands after code.
    pub fn decorate_code_end(&mut self) -> (mark: String)
        ensures
            mark@ == code_mark(),
            final(self).links() == old(self).links(),
    {
        self.decorate_code_start()
    }

    /// The first line of preformatted text gets no mark.
    pub fn decorate_preformat_first(&mut self)
        ensures
            final(self).links() == old(self).links(),
    {
    }

    /// The further lines of preformatted text get no mark.
    pub fn decorate_preformat_cont(&mut self)
        ensures
            final(self).links() == old(self).links(),
    {
    }

    /// What stands for an image: its title.
    pub fn decorate_image(&mut self, title: &str) -> (text: String)
        ensures
            text@ == title@,
            final(self).links() == old(self).links(),
    {
        String::from_str(title)
    }

    /// The decorator for a block inside this one: a new one.
    pub fn make_subblock_decorator(&self) -> (d: DiscordMarkdownDecorator)
        ensures
            d.links() == Seq::<String>::empty(),
    {
        DiscordMarkdownDecorator::new()
    }
}

impl Default for DiscordMarkdownDecorator {
    fn default() -> (d: DiscordMarkdownDecorator)
        ensures
            d.links() == Seq::<String>::empty(),
    {
        DiscordMarkdownDecorator::new()
    }
}

} // verus!
