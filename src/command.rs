//! The launch command of an installed release.
use vstd::prelude::*;
use crate::compile::client_path;
use crate::hierarchy::Hierarchy;
use crate::metadata::{Library, VersionInfo, game_strings, jvm_strings, library_included, text_views};
use crate::rules::PlatformContext;
use crate::template::{context_view, substitute, substituted};
use crate::text::{contains_char, holds_char, join_path, joined, text_eq};

verus! {

/// The classpath entries of the included libraries that have an artifact, in
/// declaration order.
pub open spec fn library_paths(libs: Seq<Library>, ctx: PlatformContext, dir: Seq<char>) -> Seq<Seq<char>>
    decreases libs.len(),
{
    if libs.len() == 0 {
        Seq::empty()
    } else {
        let lib = libs.last();
        library_paths(libs.drop_last(), ctx, dir) + if library_included(lib, ctx)
            && lib.resources.artifact is Some {
            seq![joined(dir, lib.resources.artifact->0.path@)]
        } else {
            Seq::empty()
        }
    }
}

/// The classpath entries: the library artifacts, then the client binary.
pub open spec fn classpath_entries(version: VersionInfo, h: Hierarchy, ctx: PlatformContext) -> Seq<Seq<char>> {
    library_paths(version.libraries@, ctx, h.libraries_dir@).push(client_path(h))
}

/// The entries joined by `sep`.
pub open spec fn joined_with(entries: Seq<Seq<char>>, sep: char) -> Seq<char>
    decreases entries.len(),
{
    if entries.len() == 0 {
        Seq::empty()
    } else if entries.len() == 1 {
        entries[0]
    } else {
        joined_with(entries.drop_last(), sep) + seq![sep] + entries.last()
    }
}

/// The separator of path lists: `;` on Windows, `:` elsewhere.
pub open spec fn list_separator(ctx: PlatformContext) -> char {
    if ctx.os_name@ == "windows"@ {
        ';'
    } else {
        ':'
    }
}

/// The classpath, or `None` when an entry holds the separator.
pub open spec fn classpath_of(version: VersionInfo, h: Hierarchy, ctx: PlatformContext) -> Option<Seq<char>> {
    let entries = classpath_entries(version, h, ctx);
    if exists|i: int| 0 <= i < entries.len() && holds_char(#[trigger] entries[i], list_separator(ctx)) {
        None
    } else {
        Some(joined_with(entries, list_separator(ctx)))
    }
}

/// The placeholder values of a launch, in order of precedence.
pub open spec fn launch_context(
    version: VersionInfo,
    h: Hierarchy,
    ctx: PlatformContext,
    username: Seq<char>,
    launcher_name: Seq<char>,
    launcher_version: Seq<char>,
) -> Seq<(Seq<char>, Seq<char>)> {
    let head = seq![
        ("launcher_name"@, launcher_name),
        ("launcher_version"@, launcher_version),
        ("natives_directory"@, h.natives_dir@),
        ("game_directory"@, h.gamedir@),
        ("assets_root"@, h.assets_dir@),
    ];
    let tail = seq![
        ("version_name"@, version.id@),
        ("assets_index_name"@, version.assets@),
        ("auth_player_name"@, username),
    ];
    match classpath_of(version, h, ctx) {
        Some(cp) => head.push(("classpath"@, cp)) + tail,
        None => head + tail,
    }
}

pub open spec fn substituted_all(args: Seq<Seq<char>>, c: Seq<(Seq<char>, Seq<char>)>) -> Seq<Seq<char>> {
    args.map_values(|a: Seq<char>| substituted(a, c))
}

/// A launch command: working directory, JVM arguments, main class and game arguments.
#[derive(Debug)]
pub struct GameCommand {
    pub cwd: String,
    pub jvm_args: Vec<String>,
    pub game_args: Vec<String>,
    pub main_class: String,
}

/// The path-list separator of the platform in `ctx`.
pub fn path_list_separator(ctx: &PlatformContext) -> (r: char)
    ensures
        r == list_separator(*ctx),
{
    if text_eq(&ctx.os_name, "windows") {
        ';'
    } else {
        ':'
    }
}

fn substitute_all(args: &Vec<String>, c: &Vec<(String, String)>) -> (r: Vec<String>)
    ensures
        text_views(r@) == substituted_all(text_views(args@), context_view(c@)),
{
    let mut r: Vec<String> = Vec::new();
    let mut i: usize = 0;
    while i < args.len()
        invariant
            i <= args@.len(),
            r@.len() == i,
            forall|k: int|
                0 <= k < i ==> (#[trigger] r@[k])@ == substituted(args@[k]@, context_view(c@)),
        decreases args@.len() - i,
    {
        r.push(substitute(args[i].as_str(), c));
        i = i + 1;
    }
    assert(text_views(r@) =~= substituted_all(text_views(args@), context_view(c@)));
    r
}

fn push_pair(c: &mut Vec<(String, String)>, name: &str, value: String)
    ensures
        context_view(final(c)@) == context_view(old(c)@).push((name@, value@)),
{
    c.push((String::from_str(name), value));
    assert(context_view(c@) =~= context_view(old(c)@).push((name@, value@)));
}

impl GameCommand {
    /// The classpath of `version`: each included library's artifact below the
    /// libraries directory in declaration order, then the client binary,
    /// joined by the platform's list separator. `None` when an entry holds
    /// that separator.
    pub fn build_classpath(version: &VersionInfo, hierarchy: &Hierarchy, ctx: &PlatformContext) -> (r: Option<String>)
        ensures
            match classpath_of(*version, *hierarchy, *ctx) {
                Some(cp) => r is Some && r->0@ == cp,
                None => r is None,
            },
    {
        let sep = path_list_separator(ctx);
        let mut entries: Vec<String> = Vec::new();
        let mut i: usize = 0;
        while i < version.libraries.len()
            invariant
                i <= version.libraries@.len(),
                text_views(entries@) == library_paths(
                    version.libraries@.subrange(0, i as int),
                    *ctx,
                    hierarchy.libraries_dir@,
                ),
            decreases version.libraries@.len() - i,
        {
            let lib = &version.libraries[i];
            assert(version.libraries@.subrange(0, i + 1).drop_last() =~= version.libraries@.subrange(0, i as int));
            let ghost before = entries@;
            if lib.is_supported_by_rules(ctx) {
                match &lib.resources.artifact {
                    Some(a) => {
                        entries.push(join_path(&hierarchy.libraries_dir, a.path.as_str()));
                    },
                    None => {},
                }
            }
            assert(text_views(entries@) =~= library_paths(
                version.libraries@.subrange(0, i + 1),
                *ctx,
                hierarchy.libraries_dir@,
            ));
            i = i + 1;
        }
        assert(version.libraries@.subrange(0, version.libraries@.len() as int) =~= version.libraries@);
        let ghost libs = entries@;
        entries.push(join_path(&hierarchy.version_dir, "client.jar"));
        assert(text_views(entries@) =~= text_views(libs).push(client_path(*hierarchy)));
        let ghost want = classpath_entries(*version, *hierarchy, *ctx);
        assert(text_views(entries@) == want);
        let mut k: usize = 0;
        while k < entries.len()
            invariant
                sep == list_separator(*ctx),
                want == classpath_entries(*version, *hierarchy, *ctx),
                text_views(entries@) == want,
                k <= entries@.len(),
                forall|m: int| 0 <= m < k ==> !holds_char(#[trigger] want[m], sep),
            decreases entries@.len() - k,
        {
            assert(want[k as int] == entries@[k as int]@);
            if contains_char(entries[k].as_str(), sep) {
                assert(holds_char(want[k as int], list_separator(*ctx)));
                return None;
            }
            k = k + 1;
        }
        let sep_text = if sep == ';' {
            ";"
        } else {
            ":"
        };
        proof {
            reveal_strlit(";");
            reveal_strlit(":");
        }
        assert(sep_text@ =~= seq![sep]);
        let mut out = entries[0].clone();
        let mut m: usize = 1;
        assert(want.subrange(0, 1) =~= seq![want[0]]);
        while m < entries.len()
            invariant
                text_views(entries@) == want,
                sep_text@ == seq![sep],
                1 <= m <= entries@.len(),
                out@ == joined_with(want.subrange(0, m as int), sep),
            decreases entries@.len() - m,
        {
            assert(want.subrange(0, m + 1).drop_last() =~= want.subrange(0, m as int));
            out.append(sep_text);
            out.append(entries[m].as_str());
            assert(out@ =~= joined_with(want.subrange(0, m + 1), sep));
            m = m + 1;
        }
        assert(want.subrange(0, want.len() as int) =~= want);
        Some(out)
    }

    /// The placeholder values of a launch of `version` from `hierarchy`.
    pub fn launch_params(
        version: &VersionInfo,
        hierarchy: &Hierarchy,
        ctx: &PlatformContext,
        username: &str,
        launcher_name: &str,
        launcher_version: &str,
    ) -> (r: Vec<(String, String)>)
        ensures
            context_view(r@) == launch_context(
                *version,
                *hierarchy,
                *ctx,
                username@,
                launcher_name@,
                launcher_version@,
            ),
    {
        let mut c: Vec<(String, String)> = Vec::new();
        push_pair(&mut c, "launcher_name", String::from_str(launcher_name));
        push_pair(&mut c, "launcher_version", String::from_str(launcher_version));
        push_pair(&mut c, "natives_directory", hierarchy.natives_dir.clone());
        push_pair(&mut c, "game_directory", hierarchy.gamedir.clone());
        push_pair(&mut c, "assets_root", hierarchy.assets_dir.clone());
        match Self::build_classpath(version, hierarchy, ctx) {
            Some(cp) => push_pair(&mut c, "classpath", cp),
            None => {},
        }
        push_pair(&mut c, "version_name", version.id.clone());
        push_pair(&mut c, "assets_index_name", version.assets.clone());
        push_pair(&mut c, "auth_player_name", String::from_str(username));
        assert(context_view(c@) =~= launch_context(
            *version,
            *hierarchy,
            *ctx,
            username@,
            launcher_name@,
            launcher_version@,
        ));
        c
    }

    /// The command that launches `version`: its JVM and game arguments under
    /// `ctx`, each with its placeholders substituted from the launch values.
    pub fn from_version_info(
        hierarchy: &Hierarchy,
        version: &VersionInfo,
        ctx: &PlatformContext,
        username: &str,
        launcher_name: &str,
        launcher_version: &str,
    ) -> (r: GameCommand)
        ensures
            r.cwd@ == hierarchy.gamedir@,
            r.main_class@ == version.main_class@,
            text_views(r.jvm_args@) == substituted_all(
                jvm_strings(version.arguments, *ctx),
                launch_context(*version, *hierarchy, *ctx, username@, launcher_name@, launcher_version@),
            ),
            text_views(r.game_args@) == substituted_all(
                game_strings(version.arguments, *ctx),
                launch_context(*version, *hierarchy, *ctx, username@, launcher_name@, launcher_version@),
            ),
    {
        let params = Self::launch_params(version, hierarchy, ctx, username, launcher_name, launcher_version);
        let jvm = version.arguments.iter_jvm_args(ctx);
        let game = version.arguments.iter_game_args(ctx);
        GameCommand {
            cwd: hierarchy.gamedir.clone(),
            jvm_args: substitute_all(&jvm, &params),
            game_args: substitute_all(&game, &params),
            main_class: version.main_class.clone(),
        }
    }

    /// The argument list of the launched process: JVM arguments, the main
    /// class, then game arguments.
    pub fn arguments(&self) -> (r: Vec<String>)
        ensures
            text_views(r@) == text_views(self.jvm_args@).push(self.main_class@) + text_views(
                self.game_args@,
            ),
    {
        let mut r: Vec<String> = Vec::new();
        let mut i: usize = 0;
        while i < self.jvm_args.len()
            invariant
                i <= self.jvm_args@.len(),
                r@ == self.jvm_args@.subrange(0, i as int),
            decreases self.jvm_args@.len() - i,
        {
            r.push(self.jvm_args[i].clone());
            assert(r@ =~= self.jvm_args@.subrange(0, i + 1));
            i = i + 1;
        }
        r.push(self.main_class.clone());
        let ghost head = r@;
        let mut j: usize = 0;
        while j < self.game_args.len()
            invariant
                j <= self.game_args@.len(),
                r@ == head + self.game_args@.subrange(0, j as int),
            decreases self.game_args@.len() - j,
        {
            r.push(self.game_args[j].clone());
            assert(r@ =~= head + self.game_args@.subrange(0, j + 1));
            j = j + 1;
        }
        assert(self.jvm_args@.subrange(0, self.jvm_args@.len() as int) =~= self.jvm_args@);
        assert(self.game_args@.subrange(0, self.game_args@.len() as int) =~= self.game_args@);
        assert(text_views(r@) =~= text_views(self.jvm_args@).push(self.main_class@) + text_views(
            self.game_args@,
        ));
        r
    }
}

} // verus!
