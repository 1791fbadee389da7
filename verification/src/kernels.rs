//! Kernel lists: which kernels the repositories offer and which are installed.
//!
//! A kernel counts when both its package and its `-headers` package exist.

use vstd::prelude::*;
use crate::command::{strings_view, strs_view, Command, CommandSequence, CommandType};
use crate::ordering::{sorted_unique, strictly_sorted};
use crate::text::{
    chars_eq, chars_of, chars_view, contains, contains_chars, decimal, decimal_string, ends_with,
    ends_with_chars, lines, lines_of, starts_with, starts_with_chars, sub_chars, trim, trim_chars,
    words, words_of,
};

verus! {

/// Suffix of a kernel headers package.
pub open spec fn headers_suffix() -> Seq<char> {
    "-headers"@
}

/// A `pacman -Sl` line naming a kernel headers package (outside the testing
/// repositories, and not `linux-api-headers`).
pub open spec fn is_header_line(l: Seq<char>) -> bool {
    &&& contains(l, "linux"@)
    &&& contains(l, "headers"@)
    &&& !contains(l, "testing/"@)
    &&& !contains(l, "linux-api-headers"@)
    &&& words(l).len() >= 2
    &&& ends_with(words(l)[1], headers_suffix())
}

/// `p` without its `-headers` suffix.
pub open spec fn kernel_of(p: Seq<char>) -> Seq<char> {
    p.take(p.len() - headers_suffix().len())
}

/// Kernel names derived from the headers packages listed in `ls`, in order.
pub open spec fn header_candidates_spec(ls: Seq<Seq<char>>) -> Seq<Seq<char>>
    decreases ls.len(),
{
    if ls.len() == 0 {
        Seq::empty()
    } else {
        let rest = header_candidates_spec(ls.drop_last());
        if is_header_line(ls.last()) {
            rest.push(kernel_of(words(ls.last())[1]))
        } else {
            rest
        }
    }
}

fn is_header_line_exec(l: &[char]) -> (r: Option<Vec<char>>)
    ensures
        match r {
            Some(k) => is_header_line(l@) && k@ == kernel_of(words(l@)[1]),
            None => !is_header_line(l@),
        },
{
    let linux = chars_of("linux");
    let headers = chars_of("headers");
    let testing = chars_of("testing/");
    let api = chars_of("linux-api-headers");
    let suffix = chars_of("-headers");
    if !contains_chars(l, linux.as_slice()) || !contains_chars(l, headers.as_slice()) {
        return None;
    }
    if contains_chars(l, testing.as_slice()) || contains_chars(l, api.as_slice()) {
        return None;
    }
    let parts = words_of(l);
    if parts.len() < 2 {
        return None;
    }
    let pkg = &parts[1];
    assert(pkg@ == words(l@)[1]);
    if !ends_with_chars(pkg.as_slice(), suffix.as_slice()) {
        return None;
    }
    let k = sub_chars(pkg.as_slice(), 0, pkg.len() - suffix.len());
    assert(k@ =~= kernel_of(pkg@));
    Some(k)
}

/// Kernel names offered by the repositories, from `pacman -Sl` output: for
/// each headers package, the package name without `-headers`, in order.
pub fn header_candidates(output: &str) -> (r: Vec<String>)
    ensures
        strings_view(r@) == header_candidates_spec(lines(output@)),
{
    let v = chars_of(output);
    let ls = lines_of(v.as_slice());
    let ghost all = chars_view(ls@);
    let mut out: Vec<String> = Vec::new();
    let mut i: usize = 0;
    assert(all.take(0) =~= Seq::<Seq<char>>::empty());
    assert(strings_view(out@) =~= Seq::<Seq<char>>::empty());
    while i < ls.len()
        invariant
            i <= ls@.len(),
            all == chars_view(ls@),
            strings_view(out@) == header_candidates_spec(all.take(i as int)),
        decreases ls@.len() - i,
    {
        assert(all.take(i + 1).drop_last() =~= all.take(i as int));
        assert(all.take(i + 1).last() == ls@[i as int]@);
        match is_header_line_exec(ls[i].as_slice()) {
            Some(k) => {
                out.push(crate::text::string_of(k.as_slice()));
                assert(strings_view(out@) =~= header_candidates_spec(all.take(i as int)).push(k@));
            },
            None => {},
        }
        i = i + 1;
    }
    assert(all.take(ls@.len() as int) =~= all);
    out
}

/// The `pacman -Ss` pattern that matches exactly the package `kernel`.
pub fn search_pattern(kernel: &str) -> (r: String)
    ensures
        r@ == seq!['^'] + kernel@ + seq!['$'],
{
    let mut s = String::new();
    crate::text::push_char(&mut s, '^');
    s.append(kernel);
    crate::text::push_char(&mut s, '$');
    assert(s@ =~= seq!['^'] + kernel@ + seq!['$']);
    s
}

/// Whether a repository search confirms that the package `kernel` exists: the
/// search succeeded, printed something, and lists `<repo>/<kernel>`.
pub fn search_confirms_kernel(success: bool, output: &str, kernel: &str) -> (r: bool)
    ensures
        r == (success && output@.len() > 0 && contains(output@, seq!['/'] + kernel@)),
{
    if !success {
        return false;
    }
    let v = chars_of(output);
    if v.len() == 0 {
        return false;
    }
    let mut pat: Vec<char> = Vec::new();
    pat.push('/');
    let mut k = chars_of(kernel);
    pat.append(&mut k);
    assert(pat@ =~= seq!['/'] + kernel@);
    contains_chars(v.as_slice(), pat.as_slice())
}

/// The kernels that are offered: the candidates whose package the search
/// confirmed (`confirmed[i]` for `candidates[i]`).
pub open spec fn confirmed_set(candidates: Seq<Seq<char>>, confirmed: Seq<bool>) -> Set<Seq<char>> {
    Set::new(
        |k: Seq<char>|
            exists|i: int|
                0 <= i < candidates.len() && i < confirmed.len() && confirmed[i] && candidates[i]
                    == k,
    )
}

/// The available kernels, sorted and without duplicates.
pub fn available_kernels(candidates: &Vec<String>, confirmed: &Vec<bool>) -> (r: Vec<String>)
    ensures
        strictly_sorted(strings_view(r@)),
        strings_view(r@).to_set() == confirmed_set(strings_view(candidates@), confirmed@),
{
    let ghost cs = strings_view(candidates@);
    let mut picked: Vec<Vec<char>> = Vec::new();
    let mut i: usize = 0;
    while i < candidates.len()
        invariant
            i <= candidates@.len(),
            cs == strings_view(candidates@),
            forall|k: Seq<char>|
                chars_view(picked@).contains(k) <==> (exists|j: int|
                    0 <= j < i && j < confirmed@.len() && confirmed@[j] && #[trigger] cs[j] == k),
        decreases candidates@.len() - i,
    {
        if i < confirmed.len() && confirmed[i] {
            let ghost before = chars_view(picked@);
            let c = chars_of(candidates[i].as_str());
            picked.push(c);
            assert(chars_view(picked@) =~= before.push(cs[i as int]));
            assert forall|k: Seq<char>|
                chars_view(picked@).contains(k) <==> (exists|j: int|
                    0 <= j < i + 1 && j < confirmed@.len() && confirmed@[j] && #[trigger] cs[j]
                        == k) by {
                if chars_view(picked@).contains(k) {
                    let m = choose|m: int| 0 <= m < chars_view(picked@).len() && chars_view(picked@)[m] == k;
                    if m < before.len() {
                        assert(before.contains(k));
                    } else {
                        assert(cs[i as int] == k);
                    }
                }
                if exists|j: int|
                    0 <= j < i + 1 && j < confirmed@.len() && confirmed@[j] && #[trigger] cs[j]
                        == k {
                    let j = choose|j: int|
                        0 <= j < i + 1 && j < confirmed@.len() && confirmed@[j] && #[trigger] cs[j]
                            == k;
                    if j < i {
                        assert(before.contains(k));
                        let m = choose|m: int| 0 <= m < before.len() && before[m] == k;
                        assert(chars_view(picked@)[m] == k);
                    } else {
                        assert(chars_view(picked@)[before.len() as int] == k);
                    }
                }
            }
        } else {
            assert forall|k: Seq<char>|
                chars_view(picked@).contains(k) <==> (exists|j: int|
                    0 <= j < i + 1 && j < confirmed@.len() && confirmed@[j] && #[trigger] cs[j]
                        == k) by {
                if exists|j: int|
                    0 <= j < i + 1 && j < confirmed@.len() && confirmed@[j] && #[trigger] cs[j]
                        == k {
                    let j = choose|j: int|
                        0 <= j < i + 1 && j < confirmed@.len() && confirmed@[j] && #[trigger] cs[j]
                            == k;
                    assert(j < i);
                }
            }
        }
        i = i + 1;
    }
    let r = sorted_unique(&picked);
    assert(strings_view(r@).to_set() =~= confirmed_set(cs, confirmed@));
    r
}

/// The first word of a line (empty for a blank line).
pub open spec fn first_word(l: Seq<char>) -> Seq<char> {
    if words(l).len() > 0 {
        words(l)[0]
    } else {
        Seq::empty()
    }
}

/// The package names in `pacman -Q` output: the first word of each non-blank
/// line, in order.
pub open spec fn package_names(ls: Seq<Seq<char>>) -> Seq<Seq<char>>
    decreases ls.len(),
{
    if ls.len() == 0 {
        Seq::empty()
    } else {
        let rest = package_names(ls.drop_last());
        if trim(ls.last()).len() > 0 {
            rest.push(first_word(ls.last()))
        } else {
            rest
        }
    }
}

/// A kernel headers package (not `linux-api-headers`).
pub open spec fn is_kernel_headers(p: Seq<char>) -> bool {
    starts_with(p, "linux"@) && ends_with(p, headers_suffix()) && p != "linux-api-headers"@
}

/// Installed kernels: `k` such that both `k` and its headers package are
/// installed.
pub open spec fn installed_set(pkgs: Seq<Seq<char>>) -> Set<Seq<char>> {
    Set::new(
        |k: Seq<char>|
            pkgs.contains(k + headers_suffix()) && is_kernel_headers(k + headers_suffix())
                && pkgs.contains(k),
    )
}

/// Whether `x` is one of `v`.
pub fn list_contains(v: &Vec<Vec<char>>, x: &[char]) -> (r: bool)
    ensures
        r == chars_view(v@).contains(x@),
{
    let mut i: usize = 0;
    while i < v.len()
        invariant
            i <= v@.len(),
            forall|k: int| 0 <= k < i ==> #[trigger] v@[k]@ != x@,
        decreases v@.len() - i,
    {
        if chars_eq(v[i].as_slice(), x) {
            assert(chars_view(v@)[i as int] == x@);
            return true;
        }
        i = i + 1;
    }
    assert(!chars_view(v@).contains(x@)) by {
        if chars_view(v@).contains(x@) {
            let k = choose|k: int| 0 <= k < chars_view(v@).len() && chars_view(v@)[k] == x@;
            assert(v@[k]@ == x@);
        }
    }
    false
}

fn package_names_of(output: &str) -> (r: Vec<Vec<char>>)
    ensures
        chars_view(r@) == package_names(lines(output@)),
{
    let v = chars_of(output);
    let ls = lines_of(v.as_slice());
    let ghost all = chars_view(ls@);
    let mut out: Vec<Vec<char>> = Vec::new();
    let mut i: usize = 0;
    assert(all.take(0) =~= Seq::<Seq<char>>::empty());
    assert(chars_view(out@) =~= Seq::<Seq<char>>::empty());
    while i < ls.len()
        invariant
            i <= ls@.len(),
            all == chars_view(ls@),
            chars_view(out@) == package_names(all.take(i as int)),
        decreases ls@.len() - i,
    {
        assert(all.take(i + 1).drop_last() =~= all.take(i as int));
        assert(all.take(i + 1).last() == ls@[i as int]@);
        let t = trim_chars(ls[i].as_slice());
        if t.len() > 0 {
            let ws = words_of(ls[i].as_slice());
            let w = if ws.len() > 0 {
                sub_chars(ws[0].as_slice(), 0, ws[0].len())
            } else {
                Vec::new()
            };
            assert(ws.len() > 0 ==> ws@[0]@.subrange(0, ws@[0]@.len() as int) =~= ws@[0]@);
            assert(w@ =~= first_word(ls@[i as int]@));
            out.push(w);
            assert(chars_view(out@) =~= package_names(all.take(i as int)).push(
                first_word(ls@[i as int]@),
            ));
        }
        i = i + 1;
    }
    assert(all.take(ls@.len() as int) =~= all);
    out
}

fn is_kernel_headers_exec(p: &[char]) -> (r: bool)
    ensures
        r == is_kernel_headers(p@),
{
    let linux = chars_of("linux");
    let suffix = chars_of("-headers");
    let api = chars_of("linux-api-headers");
    starts_with_chars(p, linux.as_slice()) && ends_with_chars(p, suffix.as_slice()) && !chars_eq(
        p,
        api.as_slice(),
    )
}

/// Installed kernels from `pacman -Q` output, sorted and without duplicates:
/// the kernels whose package and headers package are both installed.
pub fn installed_kernels(output: &str) -> (r: Vec<String>)
    ensures
        strictly_sorted(strings_view(r@)),
        strings_view(r@).to_set() == installed_set(package_names(lines(output@))),
{
    let pkgs = package_names_of(output);
    let ghost ps = chars_view(pkgs@);
    let mut picked: Vec<Vec<char>> = Vec::new();
    let mut j: usize = 0;
    while j < pkgs.len()
        invariant
            j <= pkgs@.len(),
            ps == chars_view(pkgs@),
            forall|k: Seq<char>|
                chars_view(picked@).contains(k) <==> (exists|m: int|
                    0 <= m < j && #[trigger] ps[m] == k + headers_suffix() && is_kernel_headers(
                        ps[m],
                    ) && ps.contains(k)),
        decreases pkgs@.len() - j,
    {
        let h = &pkgs[j];
        let ghost before = chars_view(picked@);
        if is_kernel_headers_exec(h.as_slice()) {
            proof {
                reveal_strlit("-headers");
            }
            assert(headers_suffix().len() == 8);
            let k = sub_chars(h.as_slice(), 0, h.len() - 8);
            assert(h@.skip(h@.len() - 8) == headers_suffix());
            assert(k@ + headers_suffix() =~= h@.take(h@.len() - 8) + h@.skip(h@.len() - 8));
            assert(k@ + headers_suffix() =~= h@);
            if list_contains(&pkgs, k.as_slice()) {
                let ghost kv = k@;
                picked.push(k);
                assert(chars_view(picked@) =~= before.push(kv));
                assert forall|x: Seq<char>|
                    chars_view(picked@).contains(x) <==> (exists|m: int|
                        0 <= m < j + 1 && #[trigger] ps[m] == x + headers_suffix()
                            && is_kernel_headers(ps[m]) && ps.contains(x)) by {
                    if chars_view(picked@).contains(x) {
                        let n = choose|n: int|
                            0 <= n < chars_view(picked@).len() && chars_view(picked@)[n] == x;
                        if n < before.len() {
                            assert(before.contains(x));
                        } else {
                            assert(ps[j as int] == x + headers_suffix());
                        }
                    }
                    if exists|m: int|
                        0 <= m < j + 1 && #[trigger] ps[m] == x + headers_suffix()
                            && is_kernel_headers(ps[m]) && ps.contains(x) {
                        let m = choose|m: int|
                            0 <= m < j + 1 && #[trigger] ps[m] == x + headers_suffix()
                                && is_kernel_headers(ps[m]) && ps.contains(x);
                        if m < j {
                            assert(before.contains(x));
                            let n = choose|n: int| 0 <= n < before.len() && before[n] == x;
                            assert(chars_view(picked@)[n] == x);
                        } else {
                            assert(x + headers_suffix() == kv + headers_suffix());
                            assert(x =~= (x + headers_suffix()).take(x.len() as int));
                            assert(kv =~= (kv + headers_suffix()).take(kv.len() as int));
                            assert(chars_view(picked@)[before.len() as int] == x);
                        }
                    }
                }
            } else {
                assert forall|x: Seq<char>|
                    chars_view(picked@).contains(x) <==> (exists|m: int|
                        0 <= m < j + 1 && #[trigger] ps[m] == x + headers_suffix()
                            && is_kernel_headers(ps[m]) && ps.contains(x)) by {
                    if exists|m: int|
                        0 <= m < j + 1 && #[trigger] ps[m] == x + headers_suffix()
                            && is_kernel_headers(ps[m]) && ps.contains(x) {
                        let m = choose|m: int|
                            0 <= m < j + 1 && #[trigger] ps[m] == x + headers_suffix()
                                && is_kernel_headers(ps[m]) && ps.contains(x);
                        if m == j {
                            assert(x =~= (x + headers_suffix()).take(x.len() as int));
                            assert(k@ =~= (k@ + headers_suffix()).take(k@.len() as int));
                            assert(x == k@);
                        }
                    }
                }
            }
        } else {
            assert forall|x: Seq<char>|
                chars_view(picked@).contains(x) <==> (exists|m: int|
                    0 <= m < j + 1 && #[trigger] ps[m] == x + headers_suffix() && is_kernel_headers(
                        ps[m],
                    ) && ps.contains(x)) by {
                if exists|m: int|
                    0 <= m < j + 1 && #[trigger] ps[m] == x + headers_suffix()
                        && is_kernel_headers(ps[m]) && ps.contains(x) {
                    let m = choose|m: int|
                        0 <= m < j + 1 && #[trigger] ps[m] == x + headers_suffix()
                            && is_kernel_headers(ps[m]) && ps.contains(x);
                    assert(m != j);
                }
            }
        }
        j = j + 1;
    }
    let r = sorted_unique(&picked);
    assert forall|x: Seq<char>| #[trigger] installed_set(ps).contains(x) implies chars_view(
        picked@,
    ).contains(x) by {
        let m = choose|m: int| 0 <= m < ps.len() && ps[m] == x + headers_suffix();
        assert(ps[m] == x + headers_suffix());
    }
    assert(strings_view(r@).to_set() =~= installed_set(ps));
    r
}

/// The available kernels that are not installed, in order.
pub open spec fn not_installed_spec(available: Seq<Seq<char>>, installed: Seq<Seq<char>>) -> Seq<
    Seq<char>,
>
    decreases available.len(),
{
    if available.len() == 0 {
        Seq::empty()
    } else {
        let rest = not_installed_spec(available.drop_last(), installed);
        if installed.contains(available.last()) {
            rest
        } else {
            rest.push(available.last())
        }
    }
}

/// The kernels offered for installation are exactly the available ones that
/// are not installed.
pub proof fn law_not_installed_partition(available: Seq<Seq<char>>, installed: Seq<Seq<char>>, k: Seq<char>)
    ensures
        not_installed_spec(available, installed).contains(k) == (available.contains(k)
            && !installed.contains(k)),
    decreases available.len(),
{
    if available.len() > 0 {
        let init = available.drop_last();
        law_not_installed_partition(init, installed, k);
        assert(available =~= init.push(available.last()));
        let rest = not_installed_spec(init, installed);
        if available.contains(k) && k != available.last() {
            let i = choose|i: int| 0 <= i < available.len() && available[i] == k;
            assert(i < init.len());
            assert(init[i] == k);
        }
        if init.contains(k) {
            let i = choose|i: int| 0 <= i < init.len() && init[i] == k;
            assert(available[i] == k);
        }
        if !installed.contains(available.last()) {
            assert(rest.push(available.last()).last() == available.last());
            assert(rest.push(available.last()).contains(k) == (rest.contains(k) || k
                == available.last())) by {
                if rest.push(available.last()).contains(k) && k != available.last() {
                    let i = choose|i: int| 0 <= i < rest.len() + 1 && rest.push(available.last())[i] == k;
                    assert(rest[i] == k);
                }
                if rest.contains(k) {
                    let i = choose|i: int| 0 <= i < rest.len() && rest[i] == k;
                    assert(rest.push(available.last())[i] == k);
                }
            }
        }
    }
}

/// The available kernels that are not installed, in order.
pub fn not_installed(available: &Vec<String>, installed: &Vec<String>) -> (r: Vec<String>)
    ensures
        strings_view(r@) == not_installed_spec(strings_view(available@), strings_view(installed@)),
{
    let ghost av = strings_view(available@);
    let ghost iv = strings_view(installed@);
    let mut inst: Vec<Vec<char>> = Vec::new();
    let mut m: usize = 0;
    while m < installed.len()
        invariant
            m <= installed@.len(),
            iv == strings_view(installed@),
            chars_view(inst@) == iv.take(m as int),
        decreases installed@.len() - m,
    {
        inst.push(chars_of(installed[m].as_str()));
        assert(iv.take(m + 1) =~= iv.take(m as int).push(iv[m as int]));
        assert(chars_view(inst@) =~= iv.take(m as int).push(iv[m as int]));
        m = m + 1;
    }
    assert(iv.take(installed@.len() as int) =~= iv);
    let mut out: Vec<String> = Vec::new();
    let mut i: usize = 0;
    assert(av.take(0) =~= Seq::<Seq<char>>::empty());
    assert(strings_view(out@) =~= Seq::<Seq<char>>::empty());
    while i < available.len()
        invariant
            i <= available@.len(),
            av == strings_view(available@),
            chars_view(inst@) == iv,
            strings_view(out@) == not_installed_spec(av.take(i as int), iv),
        decreases available@.len() - i,
    {
        assert(av.take(i + 1).drop_last() =~= av.take(i as int));
        assert(av.take(i + 1).last() == av[i as int]);
        let c = chars_of(available[i].as_str());
        if !list_contains(&inst, c.as_slice()) {
            out.push(available[i].clone());
            assert(strings_view(out@) =~= not_installed_spec(av.take(i as int), iv).push(
                av[i as int],
            ));
        }
        i = i + 1;
    }
    assert(av.take(available@.len() as int) =~= av);
    out
}

/// "{count} {what}", such as "3 installed".
pub fn count_label(count: usize, what: &str) -> (r: String)
    ensures
        r@ == decimal(count as nat) + seq![' '] + what@,
{
    let mut s = decimal_string(count as u64);
    crate::text::push_char(&mut s, ' ');
    s.append(what);
    s
}

/// "{kernel}-headers".
pub fn headers_package(kernel: &str) -> (r: String)
    ensures
        r@ == kernel@ + headers_suffix(),
{
    let mut s = kernel.to_owned();
    s.append("-headers");
    s
}

/// The command that installs a kernel and its headers through the AUR helper.
pub fn install_kernel_commands(kernel: &str) -> (r: CommandSequence)
    ensures
        r.view_commands().len() == 1,
        r.view_commands()[0].command_type == CommandType::Aur,
        r.view_commands()[0].program@ == "aur"@,
        strings_view(r.view_commands()[0].args@) == seq![
            "-S"@,
            "--noconfirm"@,
            "--needed"@,
            kernel@,
            kernel@ + headers_suffix(),
        ],
        r.view_commands()[0].description@ == "Installing "@ + kernel@ + " and "@ + (kernel@
            + headers_suffix()) + "..."@,
{
    let headers = headers_package(kernel);
    let mut description = "Installing ".to_owned();
    description.append(kernel);
    description.append(" and ");
    description.append(headers.as_str());
    description.append("...");
    let args: [&str; 5] = ["-S", "--noconfirm", "--needed", kernel, headers.as_str()];
    let cmd = Command::builder().aur().args(args.as_slice()).description(description.as_str()).build();
    assert(strs_view(args@) =~= seq![
        "-S"@,
        "--noconfirm"@,
        "--needed"@,
        kernel@,
        kernel@ + headers_suffix(),
    ]);
    let r = CommandSequence::new().then_run(cmd).build();
    assert(r.view_commands()[0] == cmd);
    r
}

/// The command that removes a kernel and its headers through the AUR helper.
pub fn remove_kernel_commands(kernel: &str) -> (r: CommandSequence)
    ensures
        r.view_commands().len() == 1,
        r.view_commands()[0].command_type == CommandType::Aur,
        r.view_commands()[0].program@ == "aur"@,
        strings_view(r.view_commands()[0].args@) == seq![
            "-R"@,
            "--noconfirm"@,
            kernel@,
            kernel@ + headers_suffix(),
        ],
        r.view_commands()[0].description@ == "Removing "@ + kernel@ + " and "@ + (kernel@
            + headers_suffix()) + "..."@,
{
    let headers = headers_package(kernel);
    let mut description = "Removing ".to_owned();
    description.append(kernel);
    description.append(" and ");
    description.append(headers.as_str());
    description.append("...");
    let args: [&str; 4] = ["-R", "--noconfirm", kernel, headers.as_str()];
    let cmd = Command::builder().aur().args(args.as_slice()).description(description.as_str()).build();
    assert(strs_view(args@) =~= seq!["-R"@, "--noconfirm"@, kernel@, kernel@ + headers_suffix()]);
    let r = CommandSequence::new().then_run(cmd).build();
    assert(r.view_commands()[0] == cmd);
    r
}

} // verus!
