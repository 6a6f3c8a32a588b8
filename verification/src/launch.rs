//! How the gallery binary reads its command line, and the command line with which it
//! starts its editor windows.
use vstd::prelude::*;
use crate::child_kind::{ChildKind, kind_named, is_editor_kind};
use crate::text::text_eq;

verus! {

/// The character sequences of a list of arguments.
pub open spec fn arg_views(args: Seq<String>) -> Seq<Seq<char>> {
    args.map_values(|a: String| a@)
}

/// Whether `name` is one of the arguments.
pub open spec fn has_flag(args: Seq<Seq<char>>, name: Seq<char>) -> bool {
    exists|i: int| 0 <= i < args.len() && args[i] == name
}

/// The argument after the first occurrence of `name`, if both are there.
pub open spec fn value_of(args: Seq<Seq<char>>, name: Seq<char>) -> Option<Seq<char>>
    decreases args.len(),
{
    if args.len() == 0 {
        None
    } else if args[0] == name {
        if args.len() >= 2 {
            Some(args[1])
        } else {
            None
        }
    } else {
        value_of(args.drop_first(), name)
    }
}

/// What a launch's arguments ask for. The three numbers stay text here; the window
/// size and transparency are decimal numbers read by the application.
pub struct LaunchOptions {
    pub is_child: bool,
    pub use_root_plate: bool,
    pub use_menubar: bool,
    pub use_statusbar: bool,
    pub child_kind: Option<ChildKind>,
    pub opacity: bool,
    pub border_enabled: bool,
    pub transparency: Option<String>,
    pub width: Option<String>,
    pub height: Option<String>,
}

pub open spec fn text_opt_view(o: Option<String>) -> Option<Seq<char>> {
    match o {
        Some(s) => Some(s@),
        None => None,
    }
}

/// The launch options as values: flags, child kind and the texts of the numbers.
pub struct LaunchView {
    pub is_child: bool,
    pub use_root_plate: bool,
    pub use_menubar: bool,
    pub use_statusbar: bool,
    pub child_kind: Option<ChildKind>,
    pub opacity: bool,
    pub border_enabled: bool,
    pub transparency: Option<Seq<char>>,
    pub width: Option<Seq<char>>,
    pub height: Option<Seq<char>>,
}

impl View for LaunchOptions {
    type V = LaunchView;

    open spec fn view(&self) -> LaunchView {
        LaunchView {
            is_child: self.is_child,
            use_root_plate: self.use_root_plate,
            use_menubar: self.use_menubar,
            use_statusbar: self.use_statusbar,
            child_kind: self.child_kind,
            opacity: self.opacity,
            border_enabled: self.border_enabled,
            transparency: text_opt_view(self.transparency),
            width: text_opt_view(self.width),
            height: text_opt_view(self.height),
        }
    }
}

/// What the arguments `args` ask for: `--child` runs a child window, of the kind
/// `--type` names (Floating when it names none); a child has a root plate only with
/// `--root-plate`, the gallery unless `--no-root-plate`; `--menubar`, `--statusbar`,
/// `--opacity` and `--no-border` are flags, and an editor window is always opaque;
/// `--transparency`, `--width` and `--height` take the argument after them.
pub open spec fn launch_of(args: Seq<Seq<char>>) -> LaunchView {
    let is_child = has_flag(args, "--child"@);
    let child_kind = if is_child {
        Some(
            match value_of(args, "--type"@) {
                Some(t) => match kind_named(t) {
                    Some(k) => k,
                    None => ChildKind::Floating,
                },
                None => ChildKind::Floating,
            },
        )
    } else {
        None
    };
    LaunchView {
        is_child: is_child,
        use_root_plate: if is_child {
            has_flag(args, "--root-plate"@)
        } else {
            !has_flag(args, "--no-root-plate"@)
        },
        use_menubar: has_flag(args, "--menubar"@),
        use_statusbar: has_flag(args, "--statusbar"@),
        child_kind: child_kind,
        opacity: has_flag(args, "--opacity"@) || (child_kind matches Some(k) && is_editor_kind(k)),
        border_enabled: !has_flag(args, "--no-border"@),
        transparency: value_of(args, "--transparency"@),
        width: value_of(args, "--width"@),
        height: value_of(args, "--height"@),
    }
}

/// Whether `name` is one of `args`.
pub fn flag(args: &Vec<String>, name: &str) -> (r: bool)
    ensures
        r == has_flag(arg_views(args@), name@),
{
    let mut i: usize = 0;
    while i < args.len()
        invariant
            i <= args.len(),
            forall|j: int| 0 <= j < i ==> args@[j]@ != name@,
        decreases args.len() - i,
    {
        if text_eq(args[i].as_str(), name) {
            assert(arg_views(args@)[i as int] == name@);
            return true;
        }
        i = i + 1;
    }
    assert forall|j: int| 0 <= j < args@.len() implies arg_views(args@)[j] != name@ by {
        assert(arg_views(args@)[j] == args@[j]@);
    }
    false
}

proof fn lemma_value_of_skip(args: Seq<Seq<char>>, name: Seq<char>, i: int)
    requires
        0 <= i <= args.len(),
        forall|j: int| 0 <= j < i ==> args[j] != name,
    ensures
        value_of(args, name) == value_of(args.skip(i), name),
    decreases i,
{
    if i > 0 {
        lemma_value_of_skip(args.drop_first(), name, i - 1);
        assert(args.drop_first().skip(i - 1) =~= args.skip(i));
    } else {
        assert(args.skip(0) =~= args);
    }
}

/// The argument after the first `name` among `args`, if both are there.
pub fn value(args: &Vec<String>, name: &str) -> (r: Option<String>)
    ensures
        text_opt_view(r) == value_of(arg_views(args@), name@),
{
    let ghost views = arg_views(args@);
    let mut i: usize = 0;
    while i < args.len()
        invariant
            i <= args.len(),
            views == arg_views(args@),
            forall|j: int| 0 <= j < i ==> views[j] != name@,
        decreases args.len() - i,
    {
        if text_eq(args[i].as_str(), name) {
            proof {
                lemma_value_of_skip(views, name@, i as int);
                let rest = views.skip(i as int);
                assert(rest[0] == name@);
                if i + 1 < args.len() {
                    assert(rest[1] == args@[i + 1]@);
                }
            }
            if i + 1 < args.len() {
                return Some(args[i + 1].clone());
            } else {
                return None;
            }
        }
        i = i + 1;
    }
    proof {
        lemma_value_of_skip(views, name@, args.len() as int);
        assert(views.skip(args.len() as int).len() == 0);
    }
    None
}

/// Reads the launch options from the command line `args` (the program's own path first).
pub fn parse_launch(args: &Vec<String>) -> (r: LaunchOptions)
    ensures
        r@ == launch_of(arg_views(args@)),
{
    let is_child = flag(args, "--child");
    let use_root_plate = if is_child {
        flag(args, "--root-plate")
    } else {
        !flag(args, "--no-root-plate")
    };
    let use_menubar = flag(args, "--menubar");
    let use_statusbar = flag(args, "--statusbar");
    let child_kind = if is_child {
        let named = match value(args, "--type") {
            Some(t) => ChildKind::from_arg(t.as_str()),
            None => None,
        };
        Some(
            match named {
                Some(k) => k,
                None => ChildKind::Floating,
            },
        )
    } else {
        None
    };
    let editor = match child_kind {
        Some(k) => k.is_editor(),
        None => false,
    };
    let opacity = flag(args, "--opacity") || editor;
    let border_enabled = !flag(args, "--no-border");
    let transparency = value(args, "--transparency");
    let width = value(args, "--width");
    let height = value(args, "--height");
    LaunchOptions {
        is_child,
        use_root_plate,
        use_menubar,
        use_statusbar,
        child_kind,
        opacity,
        border_enabled,
        transparency,
        width,
        height,
    }
}

/// The command line, after the program's own path, that opens a Ramp or ColorRamp
/// editor window of type `kind`: a child, at 450x350, on a root plate. The window is
/// left untracked on purpose: an editor outlives the gallery.
pub fn spawn_editor(kind: &str) -> (r: Vec<String>)
    ensures
        arg_views(r@) == editor_args(kind@),
{
    let v = vec![
        String::from_str("--child"),
        String::from_str("--type"),
        String::from_str(kind),
        String::from_str("--width"),
        String::from_str("450"),
        String::from_str("--height"),
        String::from_str("350"),
        String::from_str("--root-plate"),
    ];
    assert(arg_views(v@) =~= editor_args(kind@));
    v
}

/// The arguments that open an editor window of type `kind`.
pub open spec fn editor_args(kind: Seq<char>) -> Seq<Seq<char>> {
    seq![
        "--child"@,
        "--type"@,
        kind,
        "--width"@,
        "450"@,
        "--height"@,
        "350"@,
        "--root-plate"@,
    ]
}

/// The option names the command line knows.
pub open spec fn is_option_name(t: Seq<char>) -> bool {
    ||| t == "--child"@
    ||| t == "--type"@
    ||| t == "--width"@
    ||| t == "--height"@
    ||| t == "--root-plate"@
    ||| t == "--no-root-plate"@
    ||| t == "--menubar"@
    ||| t == "--statusbar"@
    ||| t == "--opacity"@
    ||| t == "--transparency"@
    ||| t == "--no-border"@
}

proof fn lemma_option_names_shape()
    ensures
        "--child"@.len() == 7 && "--child"@[0] == '-' && "--child"@[2] == 'c',
        "--type"@.len() == 6 && "--type"@[0] == '-',
        "--width"@.len() == 7 && "--width"@[0] == '-' && "--width"@[2] == 'w',
        "--height"@.len() == 8 && "--height"@[0] == '-',
        "--root-plate"@.len() == 12 && "--root-plate"@[0] == '-',
        "--no-root-plate"@.len() == 15 && "--no-root-plate"@[0] == '-',
        "--menubar"@.len() == 9 && "--menubar"@[0] == '-',
        "--statusbar"@.len() == 11 && "--statusbar"@[0] == '-',
        "--opacity"@.len() == 9 && "--opacity"@[0] == '-',
        "--transparency"@.len() == 14 && "--transparency"@[0] == '-',
        "--no-border"@.len() == 11 && "--no-border"@[0] == '-',
        "450"@.len() == 3 && "450"@[0] == '4',
        "350"@.len() == 3 && "350"@[0] == '3',
        "--menubar"@[2] == 'm' && "--opacity"@[2] == 'o',
        "--statusbar"@[2] == 's' && "--no-border"@[2] == 'n',
{
    reveal_strlit("--child");
    reveal_strlit("--type");
    reveal_strlit("--width");
    reveal_strlit("--height");
    reveal_strlit("--root-plate");
    reveal_strlit("--no-root-plate");
    reveal_strlit("--menubar");
    reveal_strlit("--statusbar");
    reveal_strlit("--opacity");
    reveal_strlit("--transparency");
    reveal_strlit("--no-border");
    reveal_strlit("450");
    reveal_strlit("350");
}

proof fn lemma_kind_name_shape(t: Seq<char>)
    requires
        kind_named(t) is Some,
    ensures
        t.len() > 0 && t[0] != '-',
{
    reveal_strlit("Floating");
    reveal_strlit("Fullscreen");
    reveal_strlit("Utility");
    reveal_strlit("LayerTop");
    reveal_strlit("LayerOverlay");
    reveal_strlit("LayerBackground");
    reveal_strlit("Status");
    reveal_strlit("Ramp");
    reveal_strlit("ColorRamp");
}

/// An editor window started with `spawn_editor(kind)` for a valid `--type` value is a
/// child window of that kind on a root plate, 450x350, bordered, with neither menu bar
/// nor status bar, opaque exactly when the kind is an editor, for any program path that
/// is not itself an option name.
pub proof fn lemma_spawned_editor_launch(exe: Seq<char>, kind: Seq<char>)
    requires
        kind_named(kind) is Some,
        !is_option_name(exe),
    ensures
        ({
            let o = launch_of(seq![exe] + editor_args(kind));
            &&& o.is_child
            &&& o.child_kind == kind_named(kind)
            &&& o.use_root_plate
            &&& !o.use_menubar
            &&& !o.use_statusbar
            &&& o.border_enabled
            &&& o.opacity == is_editor_kind(kind_named(kind)->0)
            &&& o.width == Some("450"@)
            &&& o.height == Some("350"@)
            &&& o.transparency is None
        }),
{
    lemma_option_names_shape();
    lemma_kind_name_shape(kind);
    let args = seq![exe] + editor_args(kind);
    assert(args =~= seq![exe, "--child"@, "--type"@, kind, "--width"@, "450"@, "--height"@, "350"@, "--root-plate"@]);
    assert(args[1] == "--child"@);
    assert(args[8] == "--root-plate"@);
    assert(kind != "--menubar"@ && kind[0] != "--menubar"@[0]);
    assert forall|n: Seq<char>| is_option_name(n) implies n[0] == '-' && n != kind by {
        assert(n[0] != kind[0]);
    }
    assert forall|i: int| 0 <= i < args.len() implies args[i] != "--menubar"@ by {
        if i == 3 {
            assert(args[i][0] != "--menubar"@[0]);
        } else if i == 1 || i == 4 || i == 8 {
        } else if i > 0 {
            assert(args[i][2] != "--menubar"@[2] || args[i].len() != 9);
        }
    }
    assert forall|i: int| 0 <= i < args.len() implies args[i] != "--opacity"@ by {
        if i == 3 {
            assert(args[i][0] != "--opacity"@[0]);
        } else if i > 0 {
            assert(args[i][2] != "--opacity"@[2] || args[i].len() != 9);
        }
    }
    assert forall|i: int| 0 <= i < args.len() implies args[i] != "--statusbar"@ by {
        if i == 3 {
            assert(args[i][0] != "--statusbar"@[0]);
        } else if i > 0 {
            assert(args[i].len() != 11);
        }
    }
    assert forall|i: int| 0 <= i < args.len() implies args[i] != "--no-border"@ by {
        if i == 3 {
            assert(args[i][0] != "--no-border"@[0]);
        } else if i > 0 {
            assert(args[i].len() != 11);
        }
    }
    assert forall|i: int| 0 <= i < args.len() implies args[i] != "--transparency"@ by {
        if i == 3 {
            assert(args[i][0] != "--transparency"@[0]);
        } else if i > 0 {
            assert(args[i].len() != 14);
        }
    }
    // --type is the third argument.
    assert(args[0] != "--type"@);
    assert(args[1] != "--type"@);
    lemma_value_of_skip(args, "--type"@, 2);
    assert(args.skip(2)[0] == "--type"@);
    assert(args.skip(2)[1] == kind);
    // --width is the fifth.
    assert forall|j: int| 0 <= j < 4 implies args[j] != "--width"@ by {
        if j == 1 {
            assert(args[j][2] != "--width"@[2]);
        } else if j == 3 {
            assert(args[j][0] != "--width"@[0]);
        }
    }
    lemma_value_of_skip(args, "--width"@, 4);
    assert(args.skip(4)[0] == "--width"@);
    assert(args.skip(4)[1] == "450"@);
    // --height is the seventh.
    assert forall|j: int| 0 <= j < 6 implies args[j] != "--height"@ by {
        if j == 3 {
            assert(args[j][0] != "--height"@[0]);
        }
    }
    lemma_value_of_skip(args, "--height"@, 6);
    assert(args.skip(6)[0] == "--height"@);
    assert(args.skip(6)[1] == "350"@);
    // --transparency is not there.
    lemma_value_of_skip(args, "--transparency"@, 9);
    assert(args.skip(9).len() == 0);
}


/// `has_flag` is membership: an option is given exactly when it is one of the arguments.
proof fn lemma_has_flag_contains(args: Seq<Seq<char>>, name: Seq<char>)
    ensures
        has_flag(args, name) == args.contains(name),
{
}

/// An option's value is the argument right after its first occurrence: none when the
/// option is absent or is the last argument.
pub proof fn lemma_value_after_first(args: Seq<Seq<char>>, name: Seq<char>)
    ensures
        !args.contains(name) ==> value_of(args, name) is None,
        forall|i: int|
            #![trigger args[i]]
            0 <= i < args.len() && args[i] == name && (forall|j: int| 0 <= j < i ==> args[j] != name)
                ==> value_of(args, name) == (if i + 1 < args.len() {
                Some(args[i + 1])
            } else {
                None
            }),
    decreases args.len(),
{
    if args.len() > 0 {
        let rest = args.drop_first();
        lemma_value_after_first(rest, name);
        if !args.contains(name) {
            assert(args[0] != name);
            assert forall|j: int| 0 <= j < rest.len() implies rest[j] != name by {
                assert(rest[j] == args[j + 1]);
            }
        }
        assert forall|i: int|
            #![trigger args[i]]
            0 <= i < args.len() && args[i] == name && (forall|j: int| 0 <= j < i ==> args[j] != name)
                implies value_of(args, name) == (if i + 1 < args.len() {
                Some(args[i + 1])
            } else {
                None
            }) by {
            if i > 0 {
                assert(args[0] != name);
                assert(rest[i - 1] == args[i]);
                assert forall|j: int| 0 <= j < i - 1 implies rest[j] != name by {
                    assert(rest[j] == args[j + 1]);
                }
                if i + 1 < args.len() {
                    assert(rest[i] == args[i + 1]);
                }
            }
        }
    }
}

/// What each launch option depends on, for every command line: `--child` alone makes a
/// child window, and only a child has a kind; `--menubar`, `--statusbar` and
/// `--no-border` act on every window, child or gallery; the root plate is asked for
/// with `--root-plate` in a child and refused with `--no-root-plate` in the gallery; a
/// window is opaque with `--opacity` and always when it is an editor.
pub proof fn lemma_launch_options(args: Seq<Seq<char>>)
    ensures
        launch_of(args).is_child == args.contains("--child"@),
        launch_of(args).child_kind is Some == args.contains("--child"@),
        launch_of(args).use_menubar == args.contains("--menubar"@),
        launch_of(args).use_statusbar == args.contains("--statusbar"@),
        launch_of(args).border_enabled == !args.contains("--no-border"@),
        launch_of(args).use_root_plate == (if args.contains("--child"@) {
            args.contains("--root-plate"@)
        } else {
            !args.contains("--no-root-plate"@)
        }),
        launch_of(args).opacity == (args.contains("--opacity"@) || launch_of(args).child_kind
            == Some(ChildKind::Ramp) || launch_of(args).child_kind == Some(ChildKind::ColorRamp)),
        launch_of(args).width == value_of(args, "--width"@),
        launch_of(args).height == value_of(args, "--height"@),
        launch_of(args).transparency == value_of(args, "--transparency"@),
{
    lemma_has_flag_contains(args, "--child"@);
    lemma_has_flag_contains(args, "--menubar"@);
    lemma_has_flag_contains(args, "--statusbar"@);
    lemma_has_flag_contains(args, "--no-border"@);
    lemma_has_flag_contains(args, "--root-plate"@);
    lemma_has_flag_contains(args, "--no-root-plate"@);
    lemma_has_flag_contains(args, "--opacity"@);
}

/// A child's kind is the one its first `--type` value names, and Floating when there is
/// no `--type` value or it names no kind.
pub proof fn lemma_launch_kind(args: Seq<Seq<char>>, i: int)
    requires
        args.contains("--child"@),
    ensures
        !args.contains("--type"@) ==> launch_of(args).child_kind == Some(ChildKind::Floating),
        0 <= i < args.len() && args[i] == "--type"@ && (forall|j: int| 0 <= j < i ==> args[j] != "--type"@)
            ==> launch_of(args).child_kind == Some(
            if i + 1 < args.len() && kind_named(args[i + 1]) is Some {
                kind_named(args[i + 1])->0
            } else {
                ChildKind::Floating
            },
        ),
{
    lemma_has_flag_contains(args, "--child"@);
    lemma_value_after_first(args, "--type"@);
    if 0 <= i < args.len() && args[i] == "--type"@ {
        assert(args[i] == "--type"@);
    }
}

} // verus!
