//! How the launcher is started with the downloaded Java runtime.

use vstd::prelude::*;

use crate::path::LocalPath;
use crate::text::strings_view;

verus! {

/// The Java executable inside a Java runtime directory, relative to it: the
/// windowless `javaw.exe` on Windows, `java` elsewhere.
pub open spec fn java_executable_name(windows: bool) -> Seq<char> {
    if windows {
        "bin/javaw.exe"@
    } else {
        "bin/java"@
    }
}

/// The Java executable of the runtime in `java_dir`.
pub fn java_executable_file(java_dir: &LocalPath, windows: bool) -> (r: LocalPath)
    ensures
        r.is(java_dir.base@, java_dir.parts_view().push(java_executable_name(windows))),
{
    if windows {
        java_dir.join("bin/javaw.exe")
    } else {
        java_dir.join("bin/java")
    }
}

/// The command that starts the launcher: `program` run with `options`, then
/// the jar, then the arguments passed on.
pub struct JavaLaunch {
    pub program: LocalPath,
    pub options: Vec<String>,
    pub jar: LocalPath,
    pub args: Vec<String>,
}

/// The options given to Java before the jar: the launcher is told not to
/// check the Java version again, and `-jar` introduces the jar.
pub open spec fn launch_options() -> Seq<Seq<char>> {
    seq!["-Dlauncher.noJavaCheck=true"@, "-jar"@]
}

/// `args` without its first entry; nothing when it is empty.
pub open spec fn after_first(args: Seq<Seq<char>>) -> Seq<Seq<char>> {
    if args.len() == 0 {
        Seq::empty()
    } else {
        args.drop_first()
    }
}

/// The arguments that this process got, without its own name, which are
/// passed on to the launcher.
pub fn forwarded_args(process_args: &Vec<String>) -> (r: Vec<String>)
    ensures
        strings_view(r@) == after_first(strings_view(process_args@)),
{
    let mut r: Vec<String> = Vec::new();
    if process_args.len() == 0 {
        assert(strings_view(r@) =~= Seq::<Seq<char>>::empty());
        return r;
    }
    let mut i: usize = 1;
    while i < process_args.len()
        invariant
            1 <= i <= process_args@.len(),
            strings_view(r@) == strings_view(process_args@).subrange(1, i as int),
        decreases process_args.len() - i,
    {
        let ghost before = r@;
        let a = process_args[i].clone();
        r.push(a);
        assert(r@ == before.push(a));
        assert(strings_view(r@) =~= strings_view(before).push(a@));
        assert(strings_view(r@) =~= strings_view(process_args@).subrange(1, i + 1));
        i = i + 1;
    }
    assert(strings_view(process_args@).subrange(1, process_args@.len() as int) =~= after_first(
        strings_view(process_args@),
    ));
    r
}

/// The command that starts the launcher jar with the Java runtime in
/// `java_dir`, passing on the arguments of this process.
pub fn relaunch_command(
    java_dir: &LocalPath,
    launcher_jar: &LocalPath,
    process_args: &Vec<String>,
    windows: bool,
) -> (r: JavaLaunch)
    ensures
        r.program.is(java_dir.base@, java_dir.parts_view().push(java_executable_name(windows))),
        strings_view(r.options@) == launch_options(),
        r.jar.is(launcher_jar.base@, launcher_jar.parts_view()),
        strings_view(r.args@) == after_first(strings_view(process_args@)),
{
    let mut options: Vec<String> = Vec::new();
    options.push("-Dlauncher.noJavaCheck=true".to_owned());
    options.push("-jar".to_owned());
    assert(strings_view(options@) =~= launch_options());
    JavaLaunch {
        program: java_executable_file(java_dir, windows),
        options,
        jar: launcher_jar.duplicate(),
        args: forwarded_args(process_args),
    }
}

} // verus!
