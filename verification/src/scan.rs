//! The summary shown once the repositories have been fetched.

use vstd::prelude::*;
use crate::models::Repo;
use crate::text::{decimal, append_usize};

verus! {

/// How many repositories the summary lists when no keyword was given.
pub const LISTED_WITHOUT_KEYWORD: usize = 10;
/// The number of repositories the latest-repositories mode announces at most.
pub const ANNOUNCED_LIMIT: usize = 500;

/// The line that lists the repository `r` at position `i` (from zero).
pub open spec fn listing_line(i: int, r: Repo) -> Seq<char> {
    "      "@ + decimal((i + 1) as nat) + ". "@ + r.name@ + " - "@ + r.html_url@
}

/// The lines that list the first `k` repositories of `repos`.
pub open spec fn listing(repos: Seq<Repo>, k: nat) -> Seq<Seq<char>> {
    Seq::new(k, |i: int| listing_line(i, repos[i]))
}

/// The lines of the summary for `repos`, fetched with `keyword` or without.
pub open spec fn scan_lines(repos: Seq<Repo>, keyword: Option<Seq<char>>) -> Seq<Seq<char>> {
    let n = repos.len();
    match keyword {
        Some(kw) => {
            seq!["   🔍 "@ + decimal(n) + " repositories trouvés avec le mot-clé '"@ + kw + "'"@]
                + if n > 0 {
                seq!["   📋 Repositories trouvés :"@] + listing(repos, n)
            } else {
                Seq::empty()
            }
        },
        None => {
            let announced: nat = if n < 500 { n } else { 500 };
            let listed: nat = if n < 10 { n } else { 10 };
            seq!["   📦 "@ + decimal(announced) + " repositories récupérés (triés par dernière activité)"@]
                + if n > 0 {
                seq!["   📋 Liste des repositories :"@] + listing(repos, listed) + if n > 10 {
                    seq![
                        "      ... et "@ + decimal((n - 10) as nat) + " autres"@,
                        "      💡 Utilisez un mot-clé pour filtrer les résultats"@,
                    ]
                } else {
                    Seq::empty()
                }
            } else {
                Seq::empty()
            }
        },
    }
}

/// Scan summary law.  With a keyword, a summary of `n > 0` repositories has
/// `n + 2` lines: the count, a title, then line `i + 2` names repository
/// `i` (its position from one, its name and its address) for every `i < n`,
/// so every repository found is shown.  Without a keyword only the first
/// ten are named, followed, when there are more, by how many more.
pub proof fn lemma_scan_lines(repos: Seq<Repo>, keyword: Option<Seq<char>>)
    ensures
        keyword is Some && repos.len() > 0 ==> scan_lines(repos, keyword).len() == repos.len() + 2,
        keyword is Some && repos.len() == 0 ==> scan_lines(repos, keyword).len() == 1,
        keyword is Some ==> forall|i: int| 0 <= i < repos.len() ==> #[trigger] scan_lines(repos, keyword)[i + 2]
            == "      "@ + decimal((i + 1) as nat) + ". "@ + repos[i].name@ + " - "@ + repos[i].html_url@,
        keyword is None && repos.len() == 0 ==> scan_lines(repos, keyword).len() == 1,
        keyword is None && 0 < repos.len() <= 10 ==> scan_lines(repos, keyword).len() == repos.len() + 2,
        keyword is None && repos.len() > 10 ==> scan_lines(repos, keyword).len() == 14,
        keyword is None ==> forall|i: int| 0 <= i < repos.len() && i < 10 ==> #[trigger] scan_lines(repos, keyword)[i + 2]
            == "      "@ + decimal((i + 1) as nat) + ". "@ + repos[i].name@ + " - "@ + repos[i].html_url@,
        keyword is None && repos.len() > 10 ==> scan_lines(repos, keyword)[12]
            == "      ... et "@ + decimal((repos.len() - 10) as nat) + " autres"@,
{
    let n = repos.len();
    let lines = scan_lines(repos, keyword);
    match keyword {
        Some(kw) => {
            if n > 0 {
                let head = seq!["   🔍 "@ + decimal(n) + " repositories trouvés avec le mot-clé '"@ + kw + "'"@];
                let rest = seq!["   📋 Repositories trouvés :"@] + listing(repos, n);
                assert(lines == head + rest);
                assert forall|i: int| 0 <= i < n implies #[trigger] lines[i + 2]
                    == "      "@ + decimal((i + 1) as nat) + ". "@ + repos[i].name@ + " - "@ + repos[i].html_url@ by {
                    assert(lines[i + 2] == rest[i + 1]);
                    assert(rest[i + 1] == listing(repos, n)[i]);
                }
            }
        },
        None => {
            if n > 0 {
                let listed: nat = if n < 10 { n } else { 10 };
                let head = seq!["   📦 "@ + decimal(if n < 500 { n } else { 500 }) + " repositories récupérés (triés par dernière activité)"@];
                let tail = if n > 10 {
                    seq![
                        "      ... et "@ + decimal((n - 10) as nat) + " autres"@,
                        "      💡 Utilisez un mot-clé pour filtrer les résultats"@,
                    ]
                } else {
                    Seq::<Seq<char>>::empty()
                };
                let rest = seq!["   📋 Liste des repositories :"@] + listing(repos, listed) + tail;
                assert(lines == head + rest);
                assert forall|i: int| 0 <= i < n && i < 10 implies #[trigger] lines[i + 2]
                    == "      "@ + decimal((i + 1) as nat) + ". "@ + repos[i].name@ + " - "@ + repos[i].html_url@ by {
                    assert(lines[i + 2] == rest[i + 1]);
                    assert(rest[i + 1] == listing(repos, listed)[i]);
                }
                if n > 10 {
                    assert(lines[12] == rest[11]);
                    assert(rest[11] == tail[0]);
                }
            }
        },
    }
}

/// The view of a list of lines.
pub open spec fn lines_view(v: Seq<String>) -> Seq<Seq<char>> {
    v.map_values(|s: String| s@)
}

/// Appends one line to `out`.
fn push_line(out: &mut Vec<String>, line: String)
    ensures
        lines_view(final(out)@) == lines_view(old(out)@).push(line@),
{
    let ghost before = out@;
    out.push(line);
    assert(lines_view(out@) =~= lines_view(before).push(line@));
}

/// Appends the listing lines of the first `k` repositories to `out`.
fn push_listing(out: &mut Vec<String>, repos: &Vec<Repo>, k: usize)
    requires
        k <= repos@.len(),
    ensures
        lines_view(final(out)@) == lines_view(old(out)@) + listing(repos@, k as nat),
{
    let ghost start = lines_view(out@);
    let mut i: usize = 0;
    while i < k
        invariant
            k <= repos@.len(),
            i <= k,
            lines_view(out@) == start + listing(repos@, i as nat),
        decreases k - i,
    {
        let r = &repos[i];
        let mut s = String::from_str("      ");
        append_usize(&mut s, i + 1);
        s.append(". ");
        s.append(r.name.as_str());
        s.append(" - ");
        s.append(r.html_url.as_str());
        let ghost before = out@;
        out.push(s);
        proof {
            assert(lines_view(out@) =~= lines_view(before).push(s@));
            assert(listing(repos@, (i + 1) as nat) =~= listing(repos@, i as nat).push(listing_line(i as int, repos@[i as int])));
        }
        i = i + 1;
    }
}

/// The lines of the summary shown after the scan: the number found, then
/// with a keyword every repository, without one the first ten and how many
/// more there are.
pub fn scan_report(repos: &Vec<Repo>, keyword: Option<&str>) -> (res: Vec<String>)
    ensures
        lines_view(res@) == scan_lines(repos@, match keyword {
            Some(k) => Some(k@),
            None => None,
        }),
        keyword is Some && repos@.len() > 0 ==> res@.len() == repos@.len() + 2,
        keyword is Some ==> forall|i: int| 0 <= i < repos@.len() ==> #[trigger] res@[i + 2]@
            == "      "@ + decimal((i + 1) as nat) + ". "@ + repos@[i].name@ + " - "@ + repos@[i].html_url@,
        keyword is None && 0 < repos@.len() <= 10 ==> res@.len() == repos@.len() + 2,
        keyword is None && repos@.len() > 10 ==> res@.len() == 14,
        keyword is None ==> forall|i: int| 0 <= i < repos@.len() && i < 10 ==> #[trigger] res@[i + 2]@
            == "      "@ + decimal((i + 1) as nat) + ". "@ + repos@[i].name@ + " - "@ + repos@[i].html_url@,
{
    let n = repos.len();
    let mut out: Vec<String> = Vec::new();
    let ghost kv = match keyword {
        Some(k) => Some(k@),
        None => None::<Seq<char>>,
    };
    match keyword {
        Some(kw) => {
            let mut s = String::from_str("   🔍 ");
            append_usize(&mut s, n);
            s.append(" repositories trouvés avec le mot-clé '");
            s.append(kw);
            s.append("'");
            let ghost l0 = s@;
            push_line(&mut out, s);
            if n > 0 {
                let t = String::from_str("   📋 Repositories trouvés :");
                push_line(&mut out, t);
                push_listing(&mut out, repos, n);
                assert(lines_view(out@) =~= seq![l0] + (seq![t@] + listing(repos@, n as nat)));
            } else {
                assert(lines_view(out@) =~= seq![l0] + Seq::<Seq<char>>::empty());
            }
        },
        None => {
            let announced = if n < ANNOUNCED_LIMIT { n } else { ANNOUNCED_LIMIT };
            let mut s = String::from_str("   📦 ");
            append_usize(&mut s, announced);
            s.append(" repositories récupérés (triés par dernière activité)");
            let ghost l0 = s@;
            push_line(&mut out, s);
            if n > 0 {
                let t = String::from_str("   📋 Liste des repositories :");
                push_line(&mut out, t);
                let listed = if n < LISTED_WITHOUT_KEYWORD { n } else { LISTED_WITHOUT_KEYWORD };
                push_listing(&mut out, repos, listed);
                if n > LISTED_WITHOUT_KEYWORD {
                    let mut m = String::from_str("      ... et ");
                    append_usize(&mut m, n - LISTED_WITHOUT_KEYWORD);
                    m.append(" autres");
                    let ghost l1 = m@;
                    push_line(&mut out, m);
                    let h = String::from_str("      💡 Utilisez un mot-clé pour filtrer les résultats");
                    push_line(&mut out, h);
                    assert(lines_view(out@) =~= seq![l0] + (seq![t@] + listing(repos@, listed as nat) + seq![l1, h@]));
                } else {
                    assert(lines_view(out@) =~= seq![l0] + (seq![t@] + listing(repos@, listed as nat) + Seq::<Seq<char>>::empty()));
                }
            } else {
                assert(lines_view(out@) =~= seq![l0] + Seq::<Seq<char>>::empty());
            }
        },
    }
    proof {
        lemma_scan_lines(repos@, kv);
        let lv = lines_view(out@);
        let sl = scan_lines(repos@, kv);
        assert(lv == sl);
        if keyword is Some {
            assert forall|i: int| 0 <= i < repos@.len() implies #[trigger] out@[i + 2]@
                == "      "@ + decimal((i + 1) as nat) + ". "@ + repos@[i].name@ + " - "@ + repos@[i].html_url@ by {
                assert(sl[i + 2] == "      "@ + decimal((i + 1) as nat) + ". "@ + repos@[i].name@ + " - "@ + repos@[i].html_url@);
                assert(lv[i + 2] == out@[i + 2]@);
            }
        } else {
            assert forall|i: int| 0 <= i < repos@.len() && i < 10 implies #[trigger] out@[i + 2]@
                == "      "@ + decimal((i + 1) as nat) + ". "@ + repos@[i].name@ + " - "@ + repos@[i].html_url@ by {
                assert(sl[i + 2] == "      "@ + decimal((i + 1) as nat) + ". "@ + repos@[i].name@ + " - "@ + repos@[i].html_url@);
                assert(lv[i + 2] == out@[i + 2]@);
            }
        }
    }
    out
}

} // verus!
