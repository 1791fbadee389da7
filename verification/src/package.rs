//! Whether packages are installed.
//!
//! The queries themselves run outside the library: `PackageCheck` says which
//! program to ask next and concludes from the answers.

use vstd::prelude::*;
use crate::command::strings_view;
use crate::text::{chars_eq, chars_of, chars_view, lines, lines_of, trim, trim_chars};

verus! {

/// A check whether a package is installed: the AUR helper (when one is in
/// use) is asked first, then pacman; the first program that lists the
/// package ends the check.
pub struct PackageCheck {
    package: String,
    programs: Vec<String>,
    asked: usize,
    found: bool,
    answers: Ghost<Seq<bool>>,
}

/// The programs asked, in order.
pub open spec fn query_programs(helper: Option<Seq<char>>) -> Seq<Seq<char>> {
    match helper {
        Some(h) => seq![h, "pacman"@],
        None => seq!["pacman"@],
    }
}

impl PackageCheck {
    /// The package checked.
    pub closed spec fn package_view(&self) -> Seq<char> {
        self.package@
    }

    /// The programs to ask, in order.
    pub closed spec fn programs_view(&self) -> Seq<Seq<char>> {
        strings_view(self.programs@)
    }

    /// The answers received so far, in order.
    pub closed spec fn answers(&self) -> Seq<bool> {
        self.answers@
    }

    /// The check's invariant: one answer per program asked, and only the last
    /// answer can be positive.
    pub closed spec fn wf(&self) -> bool {
        &&& self.answers@.len() == self.asked
        &&& self.asked <= self.programs@.len()
        &&& self.programs@.len() <= 2
        &&& self.found == (self.asked > 0 && self.answers@[self.asked - 1])
        &&& forall|i: int| 0 <= i < self.asked - 1 ==> !self.answers@[i]
    }

    /// No more program needs to be asked.
    pub open spec fn finished(&self) -> bool {
        self.answers().len() == self.programs_view().len() || (self.answers().len() > 0
            && self.answers().last())
    }

    /// The check's conclusion: some program listed the package.
    pub open spec fn installed(&self) -> bool {
        exists|i: int| 0 <= i < self.answers().len() && self.answers()[i]
    }

    /// Starts a check for `package`, with the AUR helper in use (if any).
    pub fn new(package: &str, helper: Option<&str>) -> (c: Self)
        ensures
            c.wf(),
            c.package_view() == package@,
            c.programs_view() == query_programs(match helper {
                Some(h) => Some(h@),
                None => None,
            }),
            c.answers() == Seq::<bool>::empty(),
    {
        let mut programs: Vec<String> = Vec::new();
        match helper {
            Some(h) => {
                programs.push(h.to_owned());
            },
            None => {},
        }
        programs.push("pacman".to_owned());
        let c = PackageCheck {
            package: package.to_owned(),
            programs,
            asked: 0,
            found: false,
            answers: Ghost(Seq::empty()),
        };
        assert(c.programs_view() =~= query_programs(match helper {
            Some(h) => Some(h@),
            None => None,
        }));
        c
    }

    /// The next query, as a program and its arguments (`-Q <package>`), or
    /// `None` when the check is finished.
    pub fn next_query(&self) -> (r: Option<(String, Vec<String>)>)
        requires
            self.wf(),
        ensures
            match r {
                Some((program, args)) => !self.finished() && program@ == self.programs_view()[self.answers().len() as int]
                    && strings_view(args@) == seq!["-Q"@, self.package_view()],
                None => self.finished(),
            },
    {
        if self.found || self.asked >= self.programs.len() {
            assert(self.programs_view().len() == self.programs@.len());
            return None;
        }
        assert(self.programs_view().len() == self.programs@.len());
        let program = self.programs[self.asked].clone();
        let mut args: Vec<String> = Vec::new();
        args.push("-Q".to_owned());
        args.push(self.package.clone());
        assert(strings_view(args@) =~= seq!["-Q"@, self.package_view()]);
        Some((program, args))
    }

    /// Records the answer to the last query: whether the program listed the
    /// package.
    pub fn record(&mut self, listed: bool)
        requires
            old(self).wf(),
            !old(self).finished(),
        ensures
            final(self).wf(),
            final(self).package_view() == old(self).package_view(),
            final(self).programs_view() == old(self).programs_view(),
            final(self).answers() == old(self).answers().push(listed),
    {
        let ghost prev = self.answers@;
        assert(self.programs_view().len() == self.programs@.len());
        assert(prev.len() > 0 ==> !prev[prev.len() - 1]);
        self.answers = Ghost(self.answers@.push(listed));
        self.asked = self.asked + 1;
        self.found = listed;
        assert(forall|i: int| 0 <= i < prev.len() ==> self.answers@[i] == prev[i]);
    }

    /// Whether the package was found by a program asked so far.
    pub fn is_installed(&self) -> (r: bool)
        requires
            self.wf(),
        ensures
            r == self.installed(),
    {
        if self.found {
            assert(self.answers()[self.asked - 1]);
        }
        self.found
    }
}

/// A finished check concludes "installed" exactly when its last answer was
/// positive, and pacman is asked only after the helper did not list the
/// package.
pub proof fn law_check_concludes(c: PackageCheck)
    requires
        c.wf(),
        c.finished(),
    ensures
        c.installed() == (c.answers().len() > 0 && c.answers().last()),
        c.answers().len() == 2 ==> !c.answers()[0],
{
}

/// `flatpak list --columns=application` output lists `app` on a line of its
/// own (surrounding whitespace ignored).
pub open spec fn flatpak_listed_spec(output: Seq<char>, app: Seq<char>) -> bool {
    exists|i: int| 0 <= i < lines(output).len() && trim(#[trigger] lines(output)[i]) == app
}

/// Whether a successful `flatpak list` run lists `app`.
pub fn is_flatpak_listed(success: bool, output: &str, app: &str) -> (r: bool)
    ensures
        r == (success && flatpak_listed_spec(output@, app@)),
{
    if !success {
        return false;
    }
    let v = chars_of(output);
    let a = chars_of(app);
    let ls = lines_of(v.as_slice());
    let mut i: usize = 0;
    while i < ls.len()
        invariant
            i <= ls@.len(),
            success,
            chars_view(ls@) == lines(output@),
            a@ == app@,
            forall|k: int| 0 <= k < i ==> trim(#[trigger] lines(output@)[k]) != app@,
        decreases ls@.len() - i,
    {
        let t = trim_chars(ls[i].as_slice());
        assert(lines(output@)[i as int] == ls@[i as int]@);
        if chars_eq(t.as_slice(), a.as_slice()) {
            return true;
        }
        i = i + 1;
    }
    false
}

} // verus!
