//! Routing of the build tool's console output to the console, a log file,
//! or both.

use vstd::prelude::*;

use crate::process::LogBehaviour;

verus! {

pub open spec fn strings_view(v: Seq<String>) -> Seq<Seq<char>> {
    v.map_values(|s: String| s@)
}

/// Lines are echoed to the console under `Stdout` and `StdoutFile`.
pub open spec fn spec_echoes(b: LogBehaviour) -> bool {
    b is Stdout || b is StdoutFile
}

/// Lines are written to the log file, which exists only then, under
/// `StdoutFile` and `File`.
pub open spec fn spec_writes_file(b: LogBehaviour) -> bool {
    b is StdoutFile || b is File
}

impl LogBehaviour {
    /// Whether each line is echoed to the console.
    pub fn echoes(&self) -> (r: bool)
        ensures
            r == spec_echoes(*self),
    {
        match self {
            LogBehaviour::Stdout => true,
            LogBehaviour::StdoutFile => true,
            LogBehaviour::File => false,
        }
    }

    /// Whether a log file is created and each line is written to it.
    pub fn writes_file(&self) -> (r: bool)
        ensures
            r == spec_writes_file(*self),
    {
        match self {
            LogBehaviour::Stdout => false,
            LogBehaviour::StdoutFile => true,
            LogBehaviour::File => true,
        }
    }
}

/// Where the lines of one session went: the console, in order, and the log
/// file, which is `None` when none was created.
pub struct RoutedLog {
    pub console: Vec<String>,
    pub file: Option<Vec<String>>,
}

/// Routes `lines`, in the order the build tool printed them, under the
/// policy `behaviour`.
pub fn route_lines(behaviour: LogBehaviour, lines: &Vec<String>) -> (r: RoutedLog)
    ensures
        strings_view(r.console@) == (if spec_echoes(behaviour) {
            strings_view(lines@)
        } else {
            Seq::<Seq<char>>::empty()
        }),
        r.file is Some == spec_writes_file(behaviour),
        r.file is Some ==> strings_view(r.file->Some_0@) == strings_view(lines@),
{
    let echo = behaviour.echoes();
    let write = behaviour.writes_file();
    let mut console: Vec<String> = Vec::new();
    let mut file: Vec<String> = Vec::new();
    let mut i: usize = 0;
    while i < lines.len()
        invariant
            i <= lines.len(),
            echo == spec_echoes(behaviour),
            write == spec_writes_file(behaviour),
            strings_view(console@) =~= (if echo {
                strings_view(lines@.subrange(0, i as int))
            } else {
                Seq::<Seq<char>>::empty()
            }),
            strings_view(file@) =~= (if write {
                strings_view(lines@.subrange(0, i as int))
            } else {
                Seq::<Seq<char>>::empty()
            }),
        decreases lines.len() - i,
    {
        let ghost sub = lines@.subrange(0, i + 1);
        proof {
            assert(sub =~= lines@.subrange(0, i as int).push(lines@[i as int]));
            assert(strings_view(sub) =~= strings_view(lines@.subrange(0, i as int)).push(
                lines@[i as int]@,
            ));
        }
        if echo {
            console.push(lines[i].clone());
            proof {
                assert(strings_view(console@) =~= strings_view(sub));
            }
        }
        if write {
            file.push(lines[i].clone());
            proof {
                assert(strings_view(file@) =~= strings_view(sub));
            }
        }
        i = i + 1;
    }
    assert(lines@.subrange(0, lines.len() as int) =~= lines@);
    RoutedLog { console, file: if write { Some(file) } else { None } }
}

} // verus!
