//! The profiles that the configuration files name.

use vstd::prelude::*;
use crate::names;
use crate::names::NameSet;
use crate::text;

verus! {

/// What stands between the brackets of a line that is a section header, without white
/// space around it.
pub open spec fn section_name(line: Seq<char>) -> Option<Seq<char>> {
    let t = text::trimmed(line);
    if t.len() >= 2 && t[0] == '[' && t.last() == ']' {
        Some(text::trimmed(t.subrange(1, t.len() - 1)))
    } else {
        None
    }
}

/// The profile that a line names. In a file `with_prefix` a section of a profile other
/// than the default one is called `profile` and the name.
pub open spec fn profile_of(line: Seq<char>, with_prefix: bool) -> Option<Seq<char>> {
    match section_name(line) {
        Some(inner) => if inner == "default"@ || !with_prefix {
            Some(inner)
        } else if text::has_prefix(inner, "profile "@) {
            Some(text::trimmed(inner.skip("profile "@.len() as int)))
        } else {
            None
        },
        None => None,
    }
}

/// The profiles that some lines name.
pub open spec fn profiles_of(lines: Seq<Seq<char>>, with_prefix: bool) -> Set<Seq<char>> {
    Set::new(
        |name: Seq<char>|
            exists|i: int|
                0 <= i < lines.len() && #[trigger] profile_of(lines[i], with_prefix) == Some(name),
    )
}

/// The profiles that a file names; none where it could not be read.
pub open spec fn profiles_in(content: Option<Seq<char>>, with_prefix: bool) -> Set<Seq<char>> {
    match content {
        Some(c) => profiles_of(text::lines_of(c), with_prefix),
        None => Set::empty(),
    }
}

/// The default profile alone.
pub open spec fn only_default() -> Set<Seq<char>> {
    Set::<Seq<char>>::empty().insert("default"@)
}

/// The profiles of both files; the default profile where they name none.
pub open spec fn profile_set(
    config: Option<Seq<char>>,
    credentials: Option<Seq<char>>,
) -> Set<Seq<char>> {
    let named = profiles_in(config, true).union(profiles_in(credentials, false));
    if named == Set::<Seq<char>>::empty() {
        only_default()
    } else {
        named
    }
}

/// What was read of the configuration files; a file that could not be read is `None`.
pub struct ProfileFiles {
    pub config: Option<String>,
    pub credentials: Option<String>,
}

/// The profiles to choose from. `files` is `None` where there is no home directory.
pub open spec fn profile_choice(files: Option<ProfileFiles>) -> Set<Seq<char>> {
    match files {
        Some(f) => profile_set(text::text_opt(f.config), text::text_opt(f.credentials)),
        None => only_default(),
    }
}

fn section(line: &str) -> (inner: Option<String>)
    ensures
        text::text_opt(inner) == section_name(line@),
{
    let t = text::trim(line);
    let chars = text::to_chars(t.as_str());
    let n: usize = chars.len();
    if n >= 2 && chars[0] == '[' && chars[n - 1] == ']' {
        let inner = text::from_chars(&chars, 1, n - 1);
        Some(text::trim(inner.as_str()))
    } else {
        None
    }
}

fn profile_named(line: &str, with_prefix: bool) -> (name: Option<String>)
    ensures
        text::text_opt(name) == profile_of(line@, with_prefix),
{
    match section(line) {
        Some(inner) => {
            if text::text_eq(inner.as_str(), "default") || !with_prefix {
                Some(inner)
            } else if text::starts_with(inner.as_str(), "profile ") {
                let chars = text::to_chars(inner.as_str());
                let from: usize = "profile ".unicode_len();
                let name = text::from_chars(&chars, from, chars.len());
                assert(inner@.subrange(from as int, inner@.len() as int) =~= inner@.skip(
                    from as int,
                ));
                Some(text::trim(name.as_str()))
            } else {
                None
            }
        },
        None => None,
    }
}

/// Adds the profiles that a file names.
pub fn parse_sections(content: &str, with_prefix: bool, set: &mut NameSet)
    ensures
        final(set)@ == old(set)@.union(profiles_in(Some(content@), with_prefix)),
{
    let ghost before = set@;
    let list = text::split_lines(content);
    let ghost all = text::texts(list@);
    let mut n: usize = 0;
    assert(set@ =~= before.union(profiles_of(all.take(0), with_prefix)));
    while n < list.len()
        invariant
            n <= list@.len(),
            all == text::texts(list@),
            set@ == before.union(profiles_of(all.take(n as int), with_prefix)),
        decreases list@.len() - n,
    {
        let ghost known = set@;
        let found = profile_named(list[n].as_str(), with_prefix);
        let ghost found_text = text::text_opt(found);
        match found {
            Some(name) => {
                set.insert(name);
            },
            None => {},
        }
        proof {
            lemma_next_line(all, with_prefix, n as int);
            assert(all[n as int] == list@[n as int]@);
            assert(set@ =~= before.union(profiles_of(all.take(n + 1), with_prefix)));
        }
        n = n + 1;
    }
    assert(all.take(n as int) =~= all);
}

proof fn lemma_next_line(lines: Seq<Seq<char>>, with_prefix: bool, n: int)
    requires
        0 <= n < lines.len(),
    ensures
        profiles_of(lines.take(n + 1), with_prefix) == (match profile_of(lines[n], with_prefix) {
            Some(name) => profiles_of(lines.take(n), with_prefix).insert(name),
            None => profiles_of(lines.take(n), with_prefix),
        }),
{
    let head = lines.take(n);
    let longer = lines.take(n + 1);
    assert forall|name: Seq<char>|
        profiles_of(longer, with_prefix).contains(name) == (profiles_of(
            head,
            with_prefix,
        ).contains(name) || profile_of(lines[n], with_prefix) == Some(name)) by {
        if profiles_of(head, with_prefix).contains(name) {
            let i = choose|i: int|
                0 <= i < head.len() && #[trigger] profile_of(head[i], with_prefix) == Some(name);
            assert(profile_of(longer[i], with_prefix) == Some(name));
        }
        if profiles_of(longer, with_prefix).contains(name) {
            let i = choose|i: int|
                0 <= i < longer.len() && #[trigger] profile_of(longer[i], with_prefix) == Some(
                    name,
                );
            if i < n {
                assert(profile_of(head[i], with_prefix) == Some(name));
            }
        }
        assert(longer[n] == lines[n]);
    }
    match profile_of(lines[n], with_prefix) {
        Some(name) => {
            assert(profiles_of(longer, with_prefix) =~= profiles_of(head, with_prefix).insert(
                name,
            ));
        },
        None => {
            assert(profiles_of(longer, with_prefix) =~= profiles_of(head, with_prefix));
        },
    }
}

/// The profiles to choose from, each once and in ascending order. `files` is `None`
/// where there is no home directory.
pub fn list_aws_profiles(files: Option<ProfileFiles>) -> (profiles: Vec<String>)
    ensures
        text::texts(profiles@) == names::in_order(profile_choice(files)),
        names::ascending(text::texts(profiles@)),
        text::texts(profiles@).to_set() == profile_choice(files),
        profiles@.len() > 0,
{
    let mut set = NameSet::new();
    match &files {
        Some(f) => {
            match &f.config {
                Some(content) => {
                    parse_sections(content.as_str(), true, &mut set);
                },
                None => {},
            }
            match &f.credentials {
                Some(content) => {
                    parse_sections(content.as_str(), false, &mut set);
                },
                None => {},
            }
            proof {
                assert(set@ =~= profiles_in(text::text_opt(f.config), true).union(
                    profiles_in(text::text_opt(f.credentials), false),
                ));
            }
        },
        None => {},
    }
    if set.is_empty() {
        set.insert("default".to_owned());
    }
    let profiles = set.to_list();
    proof {
        assert(set@ == profile_choice(files));
        if profiles@.len() == 0 {
            assert(text::texts(profiles@).to_set() =~= Set::<Seq<char>>::empty());
            assert(only_default().contains("default"@));
        }
    }
    profiles
}

/// The profile that the environment names, or the default one.
pub fn current_profile(variable: Option<String>) -> (profile: String)
    ensures
        profile@ == (match variable {
            Some(name) => name@,
            None => "default"@,
        }),
{
    match variable {
        Some(name) => name,
        None => "default".to_owned(),
    }
}

} // verus!
