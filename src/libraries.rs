//! The libraries of a version descriptor, with their platform rules.
use vstd::prelude::*;

use crate::json::{deref_opt, elements, elements_of, field, member, same_text, text, text_of, unsigned, unsigned_of, Json};
use crate::FetchError;

verus! {

/// A single downloadable file.
pub struct Artifact {
    pub path: String,
    pub sha1: String,
    pub size: u64,
    pub url: String,
}

/// An operating system that a platform rule can name.
#[derive(Debug, Clone, Copy, PartialEq, Eq, Structural)]
pub enum OS {
    Windows,
    Linux,
    MacOS,
}

/// A condition on the platform that a library applies to.
pub struct Rule {
    pub action: String,
    pub os: OS,
}

/// A library: its name, its file, and its rules; `None` for rules means
/// that it applies everywhere.
pub struct Library {
    pub name: String,
    pub artifact: Artifact,
    pub rules: Option<Vec<Rule>>,
}

/// What an `Artifact` holds.
pub struct ArtifactView {
    pub path: Seq<char>,
    pub sha1: Seq<char>,
    pub size: u64,
    pub url: Seq<char>,
}

/// What a `Rule` holds.
pub struct RuleView {
    pub action: Seq<char>,
    pub os: OS,
}

/// What a `Library` holds.
pub struct LibraryView {
    pub name: Seq<char>,
    pub artifact: ArtifactView,
    pub rules: Option<Seq<RuleView>>,
}

impl View for Artifact {
    type V = ArtifactView;

    open spec fn view(&self) -> ArtifactView {
        ArtifactView { path: self.path@, sha1: self.sha1@, size: self.size, url: self.url@ }
    }
}

impl View for Rule {
    type V = RuleView;

    open spec fn view(&self) -> RuleView {
        RuleView { action: self.action@, os: self.os }
    }
}

impl View for Library {
    type V = LibraryView;

    open spec fn view(&self) -> LibraryView {
        LibraryView {
            name: self.name@,
            artifact: self.artifact@,
            rules: match &self.rules {
                Some(r) => Some(rules_view(r@)),
                None => None,
            },
        }
    }
}

/// Views of a sequence of rules.
pub open spec fn rules_view(s: Seq<Rule>) -> Seq<RuleView> {
    s.map_values(|r: Rule| r@)
}

/// Views of a sequence of libraries.
pub open spec fn libraries_view(s: Seq<Library>) -> Seq<LibraryView> {
    s.map_values(|l: Library| l@)
}

/// The operating system that an `os.name` names, if it names one.
pub open spec fn os_of(name: Seq<char>) -> Option<OS> {
    if name == "windows"@ {
        Some(OS::Windows)
    } else if name == "linux"@ {
        Some(OS::Linux)
    } else if name == "osx"@ {
        Some(OS::MacOS)
    } else {
        None
    }
}

/// The rule that one element of `rules` gives; none when its platform is
/// not one that `os_of` knows.
pub open spec fn rule_of(item: Json) -> Option<RuleView> {
    let v = Some(item);
    match os_of(text(field(field(v, "os"@), "name"@))) {
        Some(os) => Some(RuleView { action: text(field(v, "action"@)), os }),
        None => None,
    }
}

/// The known rules of `items`, in their order.
pub open spec fn rules_of(items: Seq<Json>) -> Seq<RuleView>
    decreases items.len(),
{
    if items.len() == 0 {
        Seq::empty()
    } else {
        let before = rules_of(items.drop_last());
        match rule_of(items.last()) {
            Some(r) => before.push(r),
            None => before,
        }
    }
}

/// The rules of a library element: none when `rules` is missing, is not an
/// array, or holds no rule of a known platform.
pub open spec fn library_rules(rules: Option<Json>) -> Option<Seq<RuleView>> {
    match elements(rules) {
        Some(items) => if rules_of(items).len() > 0 {
            Some(rules_of(items))
        } else {
            None
        },
        None => None,
    }
}

/// The library that one element of `libraries` gives.
pub open spec fn library_of(item: Json) -> LibraryView {
    let v = Some(item);
    let a = field(field(v, "downloads"@), "artifact"@);
    LibraryView {
        name: text(field(v, "name"@)),
        artifact: ArtifactView {
            path: text(field(a, "path"@)),
            sha1: text(field(a, "sha1"@)),
            size: unsigned(field(a, "size"@)),
            url: text(field(a, "url"@)),
        },
        rules: library_rules(field(v, "rules"@)),
    }
}

/// The libraries that a sequence of elements gives, one for each.
pub open spec fn libraries_from(items: Seq<Json>) -> Seq<LibraryView> {
    items.map_values(|x: Json| library_of(x))
}

/// The libraries that a version descriptor lists, in its order; none when
/// `libraries` is missing or not an array.
pub open spec fn descriptor_libraries(descriptor: Json) -> Seq<LibraryView> {
    match elements(field(Some(descriptor), "libraries"@)) {
        Some(items) => libraries_from(items),
        None => Seq::empty(),
    }
}

/// No rule comes out of elements that name no known platform.
proof fn rules_of_unknown(items: Seq<Json>)
    requires
        forall|i: int| 0 <= i < items.len() ==> rule_of(#[trigger] items[i]) is None,
    ensures
        rules_of(items).len() == 0,
    decreases items.len(),
{
    if items.len() > 0 {
        rules_of_unknown(items.drop_last());
    }
}

/// A `rules` array whose rules all name unknown platforms gives a library
/// with no rules, that applies everywhere, not one with an empty list.
pub proof fn unknown_platforms_give_no_rules(rules: Json)
    requires
        rules matches Json::Array(items) && forall|i: int|
            0 <= i < items@.len() ==> rule_of(#[trigger] items@[i]) is None,
    ensures
        library_rules(Some(rules)) is None,
{
    if let Json::Array(items) = rules {
        rules_of_unknown(items@);
    }
}

/// Reads the platform of an `os.name`.
pub fn parse_os(name: &str) -> (r: Option<OS>)
    ensures
        r == os_of(name@),
{
    proof {
        reveal_strlit("windows");
        reveal_strlit("linux");
        reveal_strlit("osx");
    }
    if same_text(name, "windows") {
        Some(OS::Windows)
    } else if same_text(name, "linux") {
        Some(OS::Linux)
    } else if same_text(name, "osx") {
        Some(OS::MacOS)
    } else {
        None
    }
}

/// Reads one element of `rules`.
pub fn parse_rule(item: &Json) -> (r: Option<Rule>)
    ensures
        match r {
            Some(x) => rule_of(*item) == Some(x@),
            None => rule_of(*item) is None,
        },
{
    let v = Some(item);
    let name = text_of(member(member(v, "os"), "name"));
    match parse_os(name.as_str()) {
        Some(os) => Some(Rule { action: text_of(member(v, "action")), os }),
        None => None,
    }
}

/// Reads the `rules` of a library element.
pub fn parse_rules(rules: Option<&Json>) -> (r: Option<Vec<Rule>>)
    ensures
        match r {
            Some(x) => library_rules(deref_opt(rules)) == Some(rules_view(x@)),
            None => library_rules(deref_opt(rules)) is None,
        },
{
    let items = match elements_of(rules) {
        Some(items) => items,
        None => return None,
    };
    let mut parsed: Vec<Rule> = Vec::new();
    let mut i: usize = 0;
    while i < items.len()
        invariant
            i <= items.len(),
            rules_view(parsed@) == rules_of(items@.take(i as int)),
        decreases items.len() - i,
    {
        let rule = parse_rule(&items[i]);
        proof {
            assert(items@.take(i + 1).drop_last() =~= items@.take(i as int));
            assert(items@.take(i + 1).last() == items@[i as int]);
        }
        match rule {
            Some(x) => {
                parsed.push(x);
                assert(rules_view(parsed@) =~= rules_of(items@.take(i + 1)));
            },
            None => {},
        }
        i = i + 1;
    }
    assert(items@.take(items.len() as int) =~= items@);
    if parsed.len() > 0 {
        Some(parsed)
    } else {
        None
    }
}

/// Reads one element of `libraries`.
pub fn parse_library(item: &Json) -> (r: Library)
    ensures
        r@ == library_of(*item),
{
    let v = Some(item);
    let a = member(member(v, "downloads"), "artifact");
    Library {
        name: text_of(member(v, "name")),
        artifact: Artifact {
            path: text_of(member(a, "path")),
            sha1: text_of(member(a, "sha1")),
            size: unsigned_of(member(a, "size")),
            url: text_of(member(a, "url")),
        },
        rules: parse_rules(member(v, "rules")),
    }
}

/// Holds the libraries of one version once they have been read.
pub struct LibraryManager {
    pub libraries: Option<Vec<Library>>,
}

impl LibraryManager {
    /// The libraries held, as views.
    pub open spec fn library_list(&self) -> Option<Seq<LibraryView>> {
        match &self.libraries {
            Some(l) => Some(libraries_view(l@)),
            None => None,
        }
    }

    /// Reads a fetched version descriptor; on a failed fetch nothing changes.
    pub fn populate(&mut self, fetched: &Result<Json, FetchError>) -> (ok: bool)
        ensures
            ok == fetched.is_ok(),
            ok ==> final(self).library_list() == Some(descriptor_libraries(fetched->Ok_0)),
            !ok ==> *final(self) == *old(self),
    {
        match fetched {
            Ok(descriptor) => {
                self.parse_libraries(descriptor);
                true
            },
            Err(_) => false,
        }
    }

    /// Reads the `libraries` array of a version descriptor: every element
    /// gives one library, whatever its rules.
    pub fn parse_libraries(&mut self, version_data: &Json)
        ensures
            final(self).library_list() == Some(descriptor_libraries(*version_data)),
    {
        let mut libraries: Vec<Library> = Vec::new();
        match elements_of(member(Some(version_data), "libraries")) {
            Some(items) => {
                let mut i: usize = 0;
                while i < items.len()
                    invariant
                        i <= items.len(),
                        libraries_view(libraries@) == libraries_from(items@.take(i as int)),
                    decreases items.len() - i,
                {
                    let lib = parse_library(&items[i]);
                    let ghost before = libraries@;
                    libraries.push(lib);
                    proof {
                        assert(libraries_view(libraries@) =~= libraries_view(before).push(lib@));
                        assert(libraries_from(items@.take(i + 1)) =~= libraries_from(
                            items@.take(i as int),
                        ).push(library_of(items@[i as int])));
                    }
                    i = i + 1;
                }
                assert(items@.take(items.len() as int) =~= items@);
            },
            None => {},
        }
        self.libraries = Some(libraries);
    }

    /// The libraries held, if a descriptor has been read.
    pub fn get_libraries(&self) -> (r: &Option<Vec<Library>>)
        ensures
            r == &self.libraries,
    {
        &self.libraries
    }
}

} // verus!
