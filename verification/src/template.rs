//! Turning the project template into a named project: the file edits and
//! directory renames that give a new project its name and bundle identifier.
use vstd::prelude::*;
use crate::text::{concat, owned, replace_all, str_replace};
use crate::helper::{capitalize_first, capitalized};
use crate::session::{or_empty, Session};
use crate::text::opt_view;

verus! {

/// One edit of the template.
#[derive(Debug)]
pub enum TemplateStep {
    /// Replace, in the file, each `(find, replace)` pair in turn.
    ReplaceStrings { file: String, replacements: Vec<(String, String)> },
    /// Rename the directory `current` to `target_name` within its parent.
    RenameDirectory { current: String, target_name: String },
}

/// The mathematical form of a template edit.
pub enum TemplateStepView {
    ReplaceStrings { file: Seq<char>, replacements: Seq<(Seq<char>, Seq<char>)> },
    RenameDirectory { current: Seq<char>, target_name: Seq<char> },
}

/// The text of each pair.
pub open spec fn pairs_view(v: Seq<(String, String)>) -> Seq<(Seq<char>, Seq<char>)> {
    v.map_values(|p: (String, String)| (p.0@, p.1@))
}

impl TemplateStep {
    pub open spec fn view(&self) -> TemplateStepView {
        match self {
            TemplateStep::ReplaceStrings { file, replacements } => TemplateStepView::ReplaceStrings {
                file: file@,
                replacements: pairs_view(replacements@),
            },
            TemplateStep::RenameDirectory { current, target_name } => TemplateStepView::RenameDirectory {
                current: current@,
                target_name: target_name@,
            },
        }
    }
}

/// The replacements that give the template its name: `Ramp` becomes the
/// capitalized name, `ramp` the name, `com.example.name` the default bundle.
pub open spec fn naming_replacements(name: Seq<char>) -> Seq<(Seq<char>, Seq<char>)> {
    seq![
        ("Ramp"@, capitalized(name)),
        ("ramp"@, name),
        ("com.example.name"@, "com.ramp."@ + name),
    ]
}

/// The edits that turn the template copied to `<projects>/<name>` into the
/// project `name`: rename strings in `Cargo.toml`, rename the iOS and macOS app
/// bundles after the capitalized name and rename strings in their `Info.plist`
/// files, put the chosen bundle identifier in the iOS `Info.plist` when there
/// is one, and rename `ramp_template` in the iOS `Info.plist`.
pub open spec fn template_plan(projects: Option<Seq<char>>, name: Seq<char>, bundle_id: Option<Seq<char>>) -> Seq<TemplateStepView> {
    let dir = or_empty(projects) + "/"@ + name;
    let cap = capitalized(name);
    let reps = naming_replacements(name);
    let ios_plist = dir + "/ios/"@ + cap + ".app/Info.plist"@;
    let head = seq![
        TemplateStepView::ReplaceStrings { file: dir + "/Cargo.toml"@, replacements: reps },
        TemplateStepView::RenameDirectory { current: dir + "/ios/Ramp.app"@, target_name: cap + ".app"@ },
        TemplateStepView::ReplaceStrings { file: ios_plist, replacements: reps },
        TemplateStepView::RenameDirectory { current: dir + "/macos/Ramp.app"@, target_name: cap + ".app"@ },
        TemplateStepView::ReplaceStrings {
            file: dir + "/macos/"@ + cap + ".app/Contents/Info.plist"@,
            replacements: reps,
        },
    ];
    let with_bundle = match bundle_id {
        Some(b) => head.push(
            TemplateStepView::ReplaceStrings { file: ios_plist, replacements: seq![("com.ramp."@ + name, b)] },
        ),
        None => head,
    };
    with_bundle.push(
        TemplateStepView::ReplaceStrings { file: ios_plist, replacements: seq![("ramp_template"@, name)] },
    )
}

/// A copy of a string.
fn copy_string(s: &String) -> (r: String)
    ensures
        r@ == s@,
{
    owned(s.as_str())
}

/// The naming replacements for `name`.
fn naming_pairs(name: &str, cap: &String) -> (r: Vec<(String, String)>)
    requires
        cap@ == capitalized(name@),
    ensures
        pairs_view(r@) == naming_replacements(name@),
{
    let mut r: Vec<(String, String)> = Vec::new();
    r.push((owned("Ramp"), copy_string(cap)));
    r.push((owned("ramp"), owned(name)));
    r.push((owned("com.example.name"), concat("com.ramp.", name)));
    assert(pairs_view(r@) =~= naming_replacements(name@));
    r
}

/// Renames all of the paths and file contents of the template to match the
/// project name given when creating a new project: the edits, in the order in
/// which they are made; making them stops at the first that fails.
pub fn template_naming(session: &Session, name: &str, bundle_id: Option<String>) -> (r: Vec<TemplateStep>)
    ensures
        r@.map_values(|s: TemplateStep| s.view()) == template_plan(
            opt_view(session.projects_path),
            name@,
            opt_view(bundle_id),
        ),
{
    let dir = session.project_dir(name);
    let cap = capitalize_first(name);
    let ios_app = concat(concat(concat(dir.as_str(), "/ios/").as_str(), cap.as_str()).as_str(), ".app/Info.plist");
    let mut steps: Vec<TemplateStep> = Vec::new();
    steps.push(TemplateStep::ReplaceStrings {
        file: concat(dir.as_str(), "/Cargo.toml"),
        replacements: naming_pairs(name, &cap),
    });
    steps.push(TemplateStep::RenameDirectory {
        current: concat(dir.as_str(), "/ios/Ramp.app"),
        target_name: concat(cap.as_str(), ".app"),
    });
    steps.push(TemplateStep::ReplaceStrings { file: copy_string(&ios_app), replacements: naming_pairs(name, &cap) });
    steps.push(TemplateStep::RenameDirectory {
        current: concat(dir.as_str(), "/macos/Ramp.app"),
        target_name: concat(cap.as_str(), ".app"),
    });
    steps.push(TemplateStep::ReplaceStrings {
        file: concat(concat(concat(dir.as_str(), "/macos/").as_str(), cap.as_str()).as_str(), ".app/Contents/Info.plist"),
        replacements: naming_pairs(name, &cap),
    });
    let ghost head = steps@.map_values(|s: TemplateStep| s.view());
    match bundle_id {
        Some(b) => {
            let mut reps: Vec<(String, String)> = Vec::new();
            reps.push((concat("com.ramp.", name), b));
            assert(pairs_view(reps@) =~= seq![("com.ramp."@ + name@, b@)]);
            steps.push(TemplateStep::ReplaceStrings { file: copy_string(&ios_app), replacements: reps });
        },
        None => {},
    }
    let mut last: Vec<(String, String)> = Vec::new();
    last.push((owned("ramp_template"), owned(name)));
    assert(pairs_view(last@) =~= seq![("ramp_template"@, name@)]);
    steps.push(TemplateStep::ReplaceStrings { file: ios_app, replacements: last });
    assert(steps@.map_values(|s: TemplateStep| s.view()) =~= template_plan(
        opt_view(session.projects_path),
        name@,
        opt_view(bundle_id),
    ));
    steps
}

/// The text after replacing, in turn, each `(find, replace)` pair.
pub open spec fn replaced_text(content: Seq<char>, reps: Seq<(Seq<char>, Seq<char>)>) -> Seq<char>
    decreases reps.len(),
{
    if reps.len() == 0 {
        content
    } else {
        replace_all(replaced_text(content, reps.drop_last()), reps.last().0, reps.last().1)
    }
}

/// Finds and replaces the target strings in a file's content: each pair in
/// turn replaces every occurrence of its first string by its second.
pub fn replace_strings(content: &str, replacements: &Vec<(String, String)>) -> (r: String)
    ensures
        r@ == replaced_text(content@, pairs_view(replacements@)),
{
    let mut out = owned(content);
    assert(out@ =~= content@);
    let mut i: usize = 0;
    while i < replacements.len()
        invariant
            i <= replacements.len(),
            out@ == replaced_text(content@, pairs_view(replacements@).take(i as int)),
        decreases replacements.len() - i,
    {
        let ghost ps = pairs_view(replacements@);
        assert(ps.take(i + 1).drop_last() =~= ps.take(i as int));
        out = str_replace(out.as_str(), replacements[i].0.as_str(), replacements[i].1.as_str());
        i += 1;
    }
    assert(pairs_view(replacements@).take(replacements.len() as int) =~= pairs_view(replacements@));
    out
}

} // verus!
