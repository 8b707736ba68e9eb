//! Facts about the shape of a finished build command line: where the mixin
//! flag stands and that the build mode closes the profile's tokens.

use crate::builder::{
    build_command_tokens, build_verb_tokens, log_tokens, mixin_tokens, parallel_tokens,
    profile_tokens, selection_tokens, testing_flag, Selection,
};
use crate::config::{cmake_arg_text, BuildProfile, EventHandlers};
use crate::text::decimal;
use vstd::prelude::*;

verus! {

/// The packages that a selection names.
pub open spec fn selected(what: Selection) -> Seq<Seq<char>> {
    match what {
        Selection::DependenciesFor(pkgs) => pkgs,
        Selection::ThesePackages(pkgs) => pkgs,
    }
}

/// The place of the mixin flag in a build command line whose profile has
/// mixins: behind the log, the verb, the executor and the event handlers.
pub open spec fn mixin_flag_index(symlink: bool, merge: bool, profile: BuildProfile) -> int {
    (log_tokens(true).len() + build_verb_tokens(symlink, merge).len() + parallel_tokens(
        profile.parallel_jobs,
    ).len() + profile.event_handlers.tokens().len()) as int
}

/// A decimal numeral is not empty and starts with a digit.
pub proof fn lemma_decimal_starts_with_digit(n: nat)
    ensures
        decimal(n).len() > 0,
        decimal(n)[0] != '-',
    decreases n,
{
    if n >= 10 {
        lemma_decimal_starts_with_digit(n / 10);
    }
}

/// The build mode is the last token that a profile contributes, however
/// many CMake arguments the profile holds: each of them stands before it.
pub proof fn lemma_build_type_closes_profile(profile: BuildProfile)
    ensures
        profile_tokens(profile).last() == profile.build_type.flag(),
        forall|i: int|
            0 <= i < profile.cmake_args.len() ==> #[trigger] profile_tokens(profile)[profile_tokens(
                profile,
            ).len() - 1 - profile.cmake_args.len() + i] == profile.cmake_args[i],
{
}

proof fn lemma_fixed_tokens_are_no_mixin_flag()
    ensures
        "--log-base"@ != "--mixin"@,
        "log"@ != "--mixin"@,
        "/dev/null"@ != "--mixin"@,
        "build"@ != "--mixin"@,
        "--build-base"@ != "--mixin"@,
        "--install-base"@ != "--mixin"@,
        "install"@ != "--mixin"@,
        "--symlink-install"@ != "--mixin"@,
        "--merge-install"@ != "--mixin"@,
        "--executor"@ != "--mixin"@,
        "parallel"@ != "--mixin"@,
        "--parallel-workers"@ != "--mixin"@,
        "--event-handlers"@ != "--mixin"@,
        "--cmake-args"@ != "--mixin"@,
        "--packages-up-to"@ != "--mixin"@,
        "--packages-skip"@ != "--mixin"@,
        "--packages-select"@ != "--mixin"@,
        "--mixin"@.len() == 7,
        "--mixin"@[0] == '-',
        "--mixin"@[1] == '-',
{
    reveal_strlit("--mixin");
    reveal_strlit("--log-base");
    reveal_strlit("log");
    reveal_strlit("/dev/null");
    reveal_strlit("build");
    reveal_strlit("--build-base");
    reveal_strlit("--install-base");
    reveal_strlit("install");
    reveal_strlit("--symlink-install");
    reveal_strlit("--merge-install");
    reveal_strlit("--executor");
    reveal_strlit("parallel");
    reveal_strlit("--parallel-workers");
    reveal_strlit("--event-handlers");
    reveal_strlit("--cmake-args");
    reveal_strlit("--packages-up-to");
    reveal_strlit("--packages-skip");
    reveal_strlit("--packages-select");
    assert("--mixin"@.len() == 7);
    assert("--log-base"@.len() == 10);
    assert("log"@.len() == 3);
    assert("/dev/null"@.len() == 9);
    assert("build"@.len() == 5);
    assert("--build-base"@.len() == 12);
    assert("--install-base"@.len() == 14);
    assert("install"@[0] == 'i');
    assert("--symlink-install"@.len() == 17);
    assert("--merge-install"@.len() == 15);
    assert("--executor"@.len() == 10);
    assert("parallel"@.len() == 8);
    assert("--parallel-workers"@.len() == 18);
    assert("--event-handlers"@.len() == 16);
    assert("--cmake-args"@.len() == 12);
    assert("--packages-up-to"@.len() == 16);
    assert("--packages-skip"@.len() == 15);
    assert("--packages-select"@.len() == 17);
}

proof fn lemma_handlers_are_no_mixin_flag(handlers: EventHandlers)
    ensures
        forall|i: int| 0 <= i < 5 ==> #[trigger] handlers.tokens()[i] != "--mixin"@,
        handlers.tokens().len() == 5,
{
    lemma_fixed_tokens_are_no_mixin_flag();
    reveal_strlit("summary");
    reveal_strlit("console_start_end");
    reveal_strlit("console_cohesion");
    reveal_strlit("desktop_notification");
    assert("summary"@.len() == 7);
    assert("console_start_end"@.len() == 17);
    assert("console_cohesion"@.len() == 16);
    assert("desktop_notification"@.len() == 20);
}

proof fn lemma_definitions_are_no_mixin_flag(name: Seq<char>, value: Seq<char>)
    ensures
        cmake_arg_text(name, value) != "--mixin"@,
{
    lemma_fixed_tokens_are_no_mixin_flag();
    assert(cmake_arg_text(name, value)[1] == 'D');
}

proof fn lemma_head_is_free_of_mixin_flag(
    log: bool,
    symlink: bool,
    merge: bool,
    profile: BuildProfile,
)
    ensures
        forall|i: int|
            0 <= i < mixin_flag_index(symlink, merge, profile) ==> #[trigger] (log_tokens(log)
                + build_verb_tokens(symlink, merge) + parallel_tokens(profile.parallel_jobs)
                + profile.event_handlers.tokens())[i] != "--mixin"@,
        (log_tokens(log) + build_verb_tokens(symlink, merge) + parallel_tokens(
            profile.parallel_jobs,
        ) + profile.event_handlers.tokens()).len() == mixin_flag_index(symlink, merge, profile),
{
    lemma_fixed_tokens_are_no_mixin_flag();
    lemma_handlers_are_no_mixin_flag(profile.event_handlers);
    let head = log_tokens(log) + build_verb_tokens(symlink, merge);
    let exec = parallel_tokens(profile.parallel_jobs);
    let all = head + exec + profile.event_handlers.tokens();
    assert forall|i: int| 0 <= i < head.len() implies #[trigger] head[i] != "--mixin"@ by {}
    match profile.parallel_jobs {
        Some(n) => {
            lemma_decimal_starts_with_digit(n as nat);
        },
        None => {},
    }
    assert forall|i: int| 0 <= i < exec.len() implies #[trigger] exec[i] != "--mixin"@ by {}
    assert forall|i: int| 0 <= i < all.len() implies #[trigger] all[i] != "--mixin"@ by {
        if i < head.len() {
            assert(all[i] == head[i]);
        } else if i < head.len() + exec.len() {
            assert(all[i] == exec[i - head.len()]);
        } else {
            assert(all[i] == profile.event_handlers.tokens()[i - head.len() - exec.len()]);
        }
    }
}

proof fn lemma_tail_is_free_of_mixin_flag(profile: BuildProfile, what: Selection)
    requires
        !profile.cmake_args.contains("--mixin"@),
        !selected(what).contains("--mixin"@),
    ensures
        !(seq!["--cmake-args"@, testing_flag(profile.build_tests)] + profile.cmake_args + seq![
            profile.build_type.flag(),
        ] + selection_tokens(what)).contains("--mixin"@),
{
    lemma_fixed_tokens_are_no_mixin_flag();
    lemma_definitions_are_no_mixin_flag(
        "BUILD_TESTING"@,
        if profile.build_tests {
            "ON"@
        } else {
            "OFF"@
        },
    );
    lemma_definitions_are_no_mixin_flag("CMAKE_BUILD_TYPE"@, profile.build_type.name());
    let front = seq!["--cmake-args"@, testing_flag(profile.build_tests)] + profile.cmake_args
        + seq![profile.build_type.flag()];
    let sel = selection_tokens(what);
    let tail = front + sel;
    let pkgs = selected(what);
    assert forall|i: int| 0 <= i < front.len() implies #[trigger] front[i] != "--mixin"@ by {
        if 2 <= i < 2 + profile.cmake_args.len() {
            assert(front[i] == profile.cmake_args[i - 2]);
            assert(profile.cmake_args.contains(profile.cmake_args[i - 2]));
        }
    }
    assert forall|i: int| 0 <= i < sel.len() implies #[trigger] sel[i] != "--mixin"@ by {
        match what {
            Selection::DependenciesFor(p) => {
                if 1 <= i < 1 + p.len() {
                    assert(sel[i] == p[i - 1]);
                    assert(p.contains(p[i - 1]));
                } else if i > 1 + p.len() {
                    assert(sel[i] == p[i - 2 - p.len()]);
                    assert(p.contains(p[i - 2 - p.len()]));
                }
            },
            Selection::ThesePackages(p) => {
                if 1 <= i {
                    assert(sel[i] == p[i - 1]);
                    assert(p.contains(p[i - 1]));
                }
            },
        }
    }
    assert forall|i: int| 0 <= i < tail.len() implies #[trigger] tail[i] != "--mixin"@ by {
        if i < front.len() {
            assert(tail[i] == front[i]);
        } else {
            assert(tail[i] == sel[i - front.len()]);
        }
    }
}

/// A profile without mixins puts no mixin flag on the build command line,
/// provided that no CMake argument and no package is itself spelled like
/// the flag.
pub proof fn lemma_no_mixins_no_mixin_flag(
    log: bool,
    symlink: bool,
    merge: bool,
    profile: BuildProfile,
    what: Selection,
)
    requires
        profile.mixins.len() == 0,
        !profile.cmake_args.contains("--mixin"@),
        !selected(what).contains("--mixin"@),
    ensures
        !build_command_tokens(log, symlink, merge, profile, what).contains("--mixin"@),
{
    lemma_head_is_free_of_mixin_flag(log, symlink, merge, profile);
    lemma_tail_is_free_of_mixin_flag(profile, what);
    let head = log_tokens(log) + build_verb_tokens(symlink, merge) + parallel_tokens(
        profile.parallel_jobs,
    ) + profile.event_handlers.tokens();
    let tail = seq!["--cmake-args"@, testing_flag(profile.build_tests)] + profile.cmake_args
        + seq![profile.build_type.flag()] + selection_tokens(what);
    let full = build_command_tokens(log, symlink, merge, profile, what);
    assert(full =~= head + tail);
    assert forall|i: int| 0 <= i < full.len() implies #[trigger] full[i] != "--mixin"@ by {
        if i < head.len() {
            assert(full[i] == head[i]);
        } else {
            assert(full[i] == tail[i - head.len()]);
            assert(tail.contains(tail[i - head.len()]));
        }
    }
}

/// A profile with mixins puts the mixin flag on the build command line
/// exactly once, and the mixins follow it directly, all of them and in
/// their own order, provided that no mixin, no CMake argument and no
/// package is itself spelled like the flag.
pub proof fn lemma_mixins_follow_single_flag(
    log: bool,
    symlink: bool,
    merge: bool,
    profile: BuildProfile,
    what: Selection,
)
    requires
        profile.mixins.len() > 0,
        !profile.mixins.contains("--mixin"@),
        !profile.cmake_args.contains("--mixin"@),
        !selected(what).contains("--mixin"@),
    ensures
        ({
            let full = build_command_tokens(log, symlink, merge, profile, what);
            let at = mixin_flag_index(symlink, merge, profile);
            &&& 0 <= at < full.len()
            &&& full[at] == "--mixin"@
            &&& forall|i: int| 0 <= i < full.len() && i != at ==> full[i] != "--mixin"@
            &&& at + 1 + profile.mixins.len() <= full.len()
            &&& full.subrange(at + 1, at + 1 + profile.mixins.len()) == profile.mixins
        }),
{
    lemma_head_is_free_of_mixin_flag(log, symlink, merge, profile);
    lemma_tail_is_free_of_mixin_flag(profile, what);
    let head = log_tokens(log) + build_verb_tokens(symlink, merge) + parallel_tokens(
        profile.parallel_jobs,
    ) + profile.event_handlers.tokens();
    let mid = mixin_tokens(profile.mixins);
    let tail = seq!["--cmake-args"@, testing_flag(profile.build_tests)] + profile.cmake_args
        + seq![profile.build_type.flag()] + selection_tokens(what);
    let full = build_command_tokens(log, symlink, merge, profile, what);
    let at = mixin_flag_index(symlink, merge, profile);
    assert(full =~= head + mid + tail);
    assert(full[at] == mid[0]);
    assert forall|i: int| 0 <= i < full.len() && i != at implies full[i] != "--mixin"@ by {
        if i < head.len() {
            assert(full[i] == head[i]);
        } else if i < head.len() + mid.len() {
            assert(full[i] == profile.mixins[i - head.len() - 1]);
            assert(profile.mixins.contains(profile.mixins[i - head.len() - 1]));
        } else {
            assert(full[i] == tail[i - head.len() - mid.len()]);
            assert(tail.contains(tail[i - head.len() - mid.len()]));
        }
    }
    assert(full.subrange(at + 1, at + 1 + profile.mixins.len()) =~= profile.mixins);
}

} // verus!
