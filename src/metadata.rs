//! The release description: resources, libraries and launch arguments.
use vstd::prelude::*;
use crate::rules::{PlatformContext, Rules, rules_allow};
use crate::text::text_eq;

verus! {

/// A remote file: its content digest, byte size and location.
#[derive(Debug)]
pub struct Resource {
    pub sha1: String,
    pub size: u64,
    pub url: String,
}

#[derive(Debug)]
pub struct AssetIndexResource {
    pub resource: Resource,
    pub id: String,
    pub total_size: u64,
}

#[derive(Debug)]
pub struct LoggerConfig {
    pub resource: Resource,
    pub id: String,
}

#[derive(Debug)]
pub struct LoggerDescription {
    pub argument: String,
    pub log_type: String,
    pub config: LoggerConfig,
}

#[derive(Debug)]
pub struct Logging {
    pub client: LoggerDescription,
}

/// A library file and its path below the libraries directory.
#[derive(Debug)]
pub struct LibraryResource {
    pub resource: Resource,
    pub path: String,
}

/// A library's primary artifact and its classifier artifacts, keyed by name.
#[derive(Debug)]
pub struct LibraryResources {
    pub artifact: Option<LibraryResource>,
    /// Classifier artifacts; the first entry of a name counts.
    pub other: Option<Vec<(String, LibraryResource)>>,
}

#[derive(Debug)]
pub struct Library {
    pub resources: LibraryResources,
    pub name: String,
    /// Without rules a library is always included.
    pub rules: Option<Rules>,
}

#[derive(Debug)]
pub struct JavaVersion {
    pub component: String,
    pub major_version: usize,
}

#[derive(Debug)]
pub struct Downloads {
    pub client: Resource,
    pub server: Option<Resource>,
}

/// The value of a rule-gated argument: one string or several.
#[derive(Debug)]
pub enum ArgumentValue {
    One(String),
    Many(Vec<String>),
}

/// A launch argument, plain or included only when its rules allow.
#[derive(Debug)]
pub enum Argument {
    Plain(String),
    RuleSpecific { value: ArgumentValue, rules: Rules },
}

/// The launch arguments: separate JVM and game lists, or one legacy game list.
#[derive(Debug)]
pub enum Arguments {
    Modern { game: Vec<Argument>, jvm: Vec<Argument> },
    Legacy(Vec<String>),
}

#[derive(Clone, Copy, Debug, PartialEq, Eq, Structural)]
pub enum ReleaseType {
    Release,
    Snapshot,
    OldAlpha,
    OldBeta,
}

/// Everything a release declares. Times are seconds since the Unix epoch.
#[derive(Debug)]
pub struct VersionInfo {
    pub id: String,
    pub release_type: ReleaseType,
    pub minimum_launcher_version: usize,
    pub release_time: i64,
    pub time: i64,
    pub libraries: Vec<Library>,
    pub downloads: Downloads,
    pub asset_index: AssetIndexResource,
    pub assets: String,
    pub main_class: String,
    pub arguments: Arguments,
    pub java_version: Option<JavaVersion>,
    pub logging: Option<Logging>,
    pub compliance_level: Option<usize>,
}

pub open spec fn text_views(v: Seq<String>) -> Seq<Seq<char>> {
    v.map_values(|s: String| s@)
}

pub open spec fn value_strings(value: ArgumentValue) -> Seq<Seq<char>> {
    match value {
        ArgumentValue::One(s) => seq![s@],
        ArgumentValue::Many(v) => text_views(v@),
    }
}

/// The strings an argument contributes under `ctx`.
pub open spec fn argument_strings(arg: Argument, ctx: PlatformContext) -> Seq<Seq<char>> {
    match arg {
        Argument::Plain(s) => seq![s@],
        Argument::RuleSpecific { value, rules } => if rules_allow(rules.0@, ctx) {
            value_strings(value)
        } else {
            Seq::empty()
        },
    }
}

/// The strings of all arguments, in order.
pub open spec fn arguments_strings(args: Seq<Argument>, ctx: PlatformContext) -> Seq<Seq<char>>
    decreases args.len(),
{
    if args.len() == 0 {
        Seq::empty()
    } else {
        arguments_strings(args.drop_last(), ctx) + argument_strings(args.last(), ctx)
    }
}

pub open spec fn jvm_strings(args: Arguments, ctx: PlatformContext) -> Seq<Seq<char>> {
    match args {
        Arguments::Modern { jvm, .. } => arguments_strings(jvm@, ctx),
        Arguments::Legacy(_) => Seq::empty(),
    }
}

pub open spec fn game_strings(args: Arguments, ctx: PlatformContext) -> Seq<Seq<char>> {
    match args {
        Arguments::Modern { game, .. } => arguments_strings(game@, ctx),
        Arguments::Legacy(v) => text_views(v@),
    }
}

/// A library is included when it has no rules or its rules allow.
pub open spec fn library_included(lib: Library, ctx: PlatformContext) -> bool {
    match lib.rules {
        None => true,
        Some(rules) => rules_allow(rules.0@, ctx),
    }
}

/// A library without a rule set is included on every platform, while one
/// with an empty rule set is included on none.
pub proof fn lemma_absent_and_empty_rules_differ(lib: Library, ctx: PlatformContext)
    ensures
        lib.rules is None ==> library_included(lib, ctx),
        (match lib.rules {
            Some(rules) => rules.0@.len() == 0,
            None => false,
        }) ==> !library_included(lib, ctx),
{
}

/// The artifact of the first classifier entry named `key`.
pub open spec fn classifier_lookup(entries: Seq<(String, LibraryResource)>, key: Seq<char>) -> Option<LibraryResource>
    decreases entries.len(),
{
    if entries.len() == 0 {
        None
    } else if entries[0].0@ == key {
        Some(entries[0].1)
    } else {
        classifier_lookup(entries.drop_first(), key)
    }
}

/// No two classifier entries share a name, as in the description's JSON object.
pub open spec fn classifier_names_unique(entries: Seq<(String, LibraryResource)>) -> bool {
    forall|a: int, b: int|
        0 <= a < b < entries.len() ==> (#[trigger] entries[a]).0@ != (#[trigger] entries[b]).0@
}

/// With unique names, the lookup finds the entry of that name wherever it stands.
pub proof fn lemma_unique_classifier_lookup(entries: Seq<(String, LibraryResource)>, i: int)
    requires
        classifier_names_unique(entries),
        0 <= i < entries.len(),
    ensures
        classifier_lookup(entries, entries[i].0@) == Some(entries[i].1),
    decreases entries.len(),
{
    if i > 0 {
        let rest = entries.drop_first();
        assert(entries[0].0@ != entries[i].0@);
        assert(rest[i - 1] == entries[i]);
        assert forall|a: int, b: int| 0 <= a < b < rest.len() implies (#[trigger] rest[a]).0@ != (
        #[trigger] rest[b]).0@ by {
            assert(rest[a] == entries[a + 1] && rest[b] == entries[b + 1]);
        }
        lemma_unique_classifier_lookup(rest, i - 1);
    }
}

impl LibraryResources {
    pub open spec fn well_formed(self) -> bool {
        match self.other {
            Some(entries) => classifier_names_unique(entries@),
            None => true,
        }
    }
}

/// The native archive artifact of `res` for classifier `key`.
pub open spec fn native_artifact(res: LibraryResources, key: Seq<char>) -> Option<LibraryResource> {
    match res.other {
        None => None,
        Some(entries) => classifier_lookup(entries@, key),
    }
}

/// The classifier naming the native archive of a platform, if it has one.
pub open spec fn native_key(ctx: PlatformContext) -> Option<Seq<char>> {
    if ctx.os_name@ == "macos"@ && ctx.arch@ == "aarch64"@ {
        Some("natives-macos-arm64"@)
    } else if ctx.os_name@ == "linux"@ {
        Some("natives-linux"@)
    } else if ctx.os_name@ == "windows"@ {
        Some("natives-windows"@)
    } else if ctx.os_name@ == "macos"@ {
        Some("natives-macos"@)
    } else {
        None
    }
}

/// The classifier naming the native archive of the platform in `ctx`;
/// `None` for a platform without native archives.
pub fn native_classifier(ctx: &PlatformContext) -> (r: Option<String>)
    ensures
        r is Some <==> native_key(*ctx) is Some,
        r is Some ==> r->0@ == native_key(*ctx)->0,
{
    if text_eq(&ctx.os_name, "macos") && text_eq(&ctx.arch, "aarch64") {
        Some(String::from_str("natives-macos-arm64"))
    } else if text_eq(&ctx.os_name, "linux") {
        Some(String::from_str("natives-linux"))
    } else if text_eq(&ctx.os_name, "windows") {
        Some(String::from_str("natives-windows"))
    } else if text_eq(&ctx.os_name, "macos") {
        Some(String::from_str("natives-macos"))
    } else {
        None
    }
}

fn clone_texts(v: &Vec<String>) -> (r: Vec<String>)
    ensures
        r@ == v@,
        text_views(r@) == text_views(v@),
{
    let mut r: Vec<String> = Vec::new();
    let mut i: usize = 0;
    while i < v.len()
        invariant
            i <= v@.len(),
            r@ == v@.subrange(0, i as int),
        decreases v@.len() - i,
    {
        r.push(v[i].clone());
        assert(r@ =~= v@.subrange(0, i + 1));
        i = i + 1;
    }
    assert(v@.subrange(0, v@.len() as int) =~= v@);
    r
}

fn append_texts(out: &mut Vec<String>, v: &Vec<String>)
    ensures
        final(out)@ == old(out)@ + v@,
        text_views(final(out)@) == text_views(old(out)@) + text_views(v@),
{
    let mut i: usize = 0;
    while i < v.len()
        invariant
            i <= v@.len(),
            out@ == old(out)@ + v@.subrange(0, i as int),
        decreases v@.len() - i,
    {
        out.push(v[i].clone());
        assert(out@ =~= old(out)@ + v@.subrange(0, i + 1));
        i = i + 1;
    }
    assert(v@.subrange(0, v@.len() as int) =~= v@);
    assert(text_views(out@) =~= text_views(old(out)@) + text_views(v@));
}

impl ArgumentValue {
    /// The strings of this value, in order.
    pub fn strings(&self) -> (r: Vec<String>)
        ensures
            text_views(r@) == value_strings(*self),
    {
        match self {
            ArgumentValue::One(s) => {
                let r = vec![s.clone()];
                assert(text_views(r@) =~= seq![s@]);
                r
            },
            ArgumentValue::Many(v) => clone_texts(v),
        }
    }
}

impl Argument {
    /// The strings this argument contributes under `ctx`: a plain argument
    /// always, a rule-gated one only when its rules allow.
    pub fn iter_strings(&self, ctx: &PlatformContext) -> (r: Vec<String>)
        ensures
            text_views(r@) == argument_strings(*self, *ctx),
    {
        match self {
            Argument::Plain(s) => {
                let r = vec![s.clone()];
                assert(text_views(r@) =~= seq![s@]);
                r
            },
            Argument::RuleSpecific { value, rules } => {
                if rules.is_allowed(ctx) {
                    value.strings()
                } else {
                    let r: Vec<String> = Vec::new();
                    assert(text_views(r@) =~= Seq::empty());
                    r
                }
            },
        }
    }
}

fn collect_arguments(args: &Vec<Argument>, ctx: &PlatformContext) -> (r: Vec<String>)
    ensures
        text_views(r@) == arguments_strings(args@, *ctx),
{
    let mut r: Vec<String> = Vec::new();
    let mut i: usize = 0;
    assert(text_views(r@) =~= Seq::empty());
    while i < args.len()
        invariant
            i <= args@.len(),
            text_views(r@) == arguments_strings(args@.subrange(0, i as int), *ctx),
        decreases args@.len() - i,
    {
        let part = args[i].iter_strings(ctx);
        append_texts(&mut r, &part);
        assert(args@.subrange(0, i + 1).drop_last() =~= args@.subrange(0, i as int));
        i = i + 1;
    }
    assert(args@.subrange(0, args@.len() as int) =~= args@);
    r
}

impl Arguments {
    /// The JVM arguments under `ctx`; a legacy description has none.
    pub fn iter_jvm_args(&self, ctx: &PlatformContext) -> (r: Vec<String>)
        ensures
            text_views(r@) == jvm_strings(*self, *ctx),
    {
        match self {
            Arguments::Modern { jvm, .. } => collect_arguments(jvm, ctx),
            Arguments::Legacy(_) => {
                let r: Vec<String> = Vec::new();
                assert(text_views(r@) =~= Seq::empty());
                r
            },
        }
    }

    /// The game arguments under `ctx`.
    pub fn iter_game_args(&self, ctx: &PlatformContext) -> (r: Vec<String>)
        ensures
            text_views(r@) == game_strings(*self, *ctx),
    {
        match self {
            Arguments::Modern { game, .. } => collect_arguments(game, ctx),
            Arguments::Legacy(v) => clone_texts(v),
        }
    }
}

impl Library {
    /// Whether the library is included: it has no rules, or its rules allow.
    pub fn is_supported_by_rules(&self, ctx: &PlatformContext) -> (r: bool)
        ensures
            r == library_included(*self, *ctx),
    {
        match &self.rules {
            None => true,
            Some(rules) => rules.is_allowed(ctx),
        }
    }
}

impl LibraryResources {
    /// The classifier artifact named `key`, if the library has one.
    pub fn get_native_for_os(&self, key: &String) -> (r: Option<&LibraryResource>)
        ensures
            r is Some <==> native_artifact(*self, key@) is Some,
            r is Some ==> *r->0 == native_artifact(*self, key@)->0,
    {
        match &self.other {
            None => None,
            Some(entries) => {
                let mut i: usize = 0;
                assert(entries@.subrange(0, entries@.len() as int) =~= entries@);
                while i < entries.len()
                    invariant
                        i <= entries@.len(),
                        self.other == Some(*entries),
                        classifier_lookup(entries@, key@) == classifier_lookup(
                            entries@.subrange(i as int, entries@.len() as int),
                            key@,
                        ),
                    decreases entries@.len() - i,
                {
                    let ghost rest = entries@.subrange(i as int, entries@.len() as int);
                    assert(rest[0] == entries@[i as int]);
                    if entries[i].0.eq(key) {
                        return Some(&entries[i].1);
                    }
                    assert(rest.drop_first() =~= entries@.subrange(i + 1, entries@.len() as int));
                    i = i + 1;
                }
                None
            },
        }
    }
}

} // verus!
