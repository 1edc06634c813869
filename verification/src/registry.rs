//! The declarative per-language registry: each supported language maps to
//! a fixed target filename and an ordered stage plan (build stages first,
//! the run stage last). Which stages receive the stdin payload is an
//! explicit per-stage property: only the run stage reads it, build stages
//! consume no input.

use vstd::prelude::*;

verus! {

/// A language the dispatch surface can select. Adding one means adding a
/// row here and a plan below; the execution logic is untouched.
#[derive(Clone, Copy, Debug, PartialEq, Eq, Structural)]
pub enum Language {
    C,
    Cpp,
    Python3,
    Java,
    Go,
}

/// One stage of a pipeline: a complete, independently executable script
/// body, and whether the stage is fed the job's stdin payload.
pub struct StageScript {
    pub body: String,
    pub feed_stdin: bool,
}

/// A language's fixed pipeline: the filename the source is written under,
/// and the ordered, non-empty stage scripts.
pub struct StagePlan {
    pub filename: String,
    pub scripts: Vec<StageScript>,
}

/// The filename the submitted source is stored under for `lang`.
pub open spec fn plan_filename(lang: Language) -> Seq<char> {
    match lang {
        Language::C => "main.c"@,
        Language::Cpp => "main.cpp"@,
        Language::Python3 => "main.py"@,
        Language::Java => "Main.java"@,
        Language::Go => "main.go"@,
    }
}

/// How many stages `lang`'s pipeline has.
pub open spec fn plan_stage_count(lang: Language) -> int {
    match lang {
        Language::C => 2,
        Language::Cpp => 2,
        Language::Python3 => 1,
        Language::Java => 2,
        Language::Go => 2,
    }
}

/// The script body of stage `i` of `lang`'s pipeline.
pub open spec fn plan_script(lang: Language, i: int) -> Seq<char>
    recommends
        0 <= i < plan_stage_count(lang),
{
    match lang {
        Language::C => if i == 0 {
            "#!/bin/bash\ngcc main.c -o main"@
        } else {
            "#!/bin/bash\n./main"@
        },
        Language::Cpp => if i == 0 {
            "#!/bin/bash\ng++ main.cpp -o main"@
        } else {
            "#!/bin/bash\n./main"@
        },
        Language::Python3 => "#!/bin/bash\npython main.py"@,
        Language::Java => if i == 0 {
            "#!/bin/bash\njavac -J-Xms64m -J-Xmx128m Main.java"@
        } else {
            "#!/bin/bash\njava -Xms64m -Xmx128m Main"@
        },
        Language::Go => if i == 0 {
            "#!/bin/bash\ngo build main.go"@
        } else {
            "#!/bin/bash\n./main"@
        },
    }
}

/// The whole plan owed for one language: the filename, one script per
/// stage in order, and stdin fed to the run stage (the last) alone.
pub open spec fn plan_matches(p: StagePlan, lang: Language) -> bool {
    &&& p.filename@ == plan_filename(lang)
    &&& p.scripts@.len() == plan_stage_count(lang)
    &&& forall|i: int|
        0 <= i < p.scripts@.len() ==> (#[trigger] p.scripts@[i]).body@ == plan_script(lang, i)
    &&& forall|i: int|
        0 <= i < p.scripts@.len() ==> ((#[trigger] p.scripts@[i]).feed_stdin <==> i
            == p.scripts@.len() - 1)
}

fn single_stage_plan(filename: &str, run: &str) -> (p: StagePlan)
    ensures
        p.filename@ == filename@,
        p.scripts@.len() == 1,
        p.scripts@[0].body@ == run@,
        p.scripts@[0].feed_stdin == true,
{
    let mut scripts: Vec<StageScript> = Vec::new();
    scripts.push(StageScript { body: run.to_owned(), feed_stdin: true });
    StagePlan { filename: filename.to_owned(), scripts }
}

fn two_stage_plan(filename: &str, build: &str, run: &str) -> (p: StagePlan)
    ensures
        p.filename@ == filename@,
        p.scripts@.len() == 2,
        p.scripts@[0].body@ == build@,
        p.scripts@[0].feed_stdin == false,
        p.scripts@[1].body@ == run@,
        p.scripts@[1].feed_stdin == true,
{
    let mut scripts: Vec<StageScript> = Vec::new();
    scripts.push(StageScript { body: build.to_owned(), feed_stdin: false });
    scripts.push(StageScript { body: run.to_owned(), feed_stdin: true });
    StagePlan { filename: filename.to_owned(), scripts }
}

/// The fixed pipeline for `lang`.
pub fn plan_for(lang: Language) -> (p: StagePlan)
    ensures
        plan_matches(p, lang),
        p.scripts@.len() >= 1,
{
    match lang {
        Language::C => two_stage_plan(
            "main.c",
            "#!/bin/bash\ngcc main.c -o main",
            "#!/bin/bash\n./main",
        ),
        Language::Cpp => two_stage_plan(
            "main.cpp",
            "#!/bin/bash\ng++ main.cpp -o main",
            "#!/bin/bash\n./main",
        ),
        Language::Python3 => single_stage_plan("main.py", "#!/bin/bash\npython main.py"),
        Language::Java => two_stage_plan(
            "Main.java",
            "#!/bin/bash\njavac -J-Xms64m -J-Xmx128m Main.java",
            "#!/bin/bash\njava -Xms64m -Xmx128m Main",
        ),
        Language::Go => two_stage_plan(
            "main.go",
            "#!/bin/bash\ngo build main.go",
            "#!/bin/bash\n./main",
        ),
    }
}

} // verus!
