//! What each operation on Linux gives, said of what it was given and of what the host answered.

use vstd::prelude::*;
use vstd::utf8::*;

use crate::error;
use crate::error::{IoError, IoErrorKind, LaunchError};
use crate::host;
use crate::host::CommandOutput;
use crate::linux;
use crate::linux::{
    AutoLaunch, DisableStep, EnableStep, EnabledStep, LinuxLaunchMode, OwnedStep, PathStep,
    Registration,
};
use crate::text;
use crate::text_laws;

verus! {

proof fn lemma_nine(lines: Seq<Seq<char>>, sep: Seq<char>)
    requires
        lines.len() == 9,
    ensures
        text::joined(lines, sep) == lines[0] + sep + lines[1] + sep + lines[2] + sep + lines[3]
            + sep + lines[4] + sep + lines[5] + sep + lines[6] + sep + lines[7] + sep + lines[8],
{
    lemma_joined_prefix(lines, sep, 8);
    lemma_joined_prefix(lines, sep, 7);
    lemma_joined_prefix(lines, sep, 6);
    lemma_joined_prefix(lines, sep, 5);
    lemma_joined_prefix(lines, sep, 4);
    lemma_joined_prefix(lines, sep, 3);
    lemma_joined_prefix(lines, sep, 2);
    lemma_joined_prefix(lines, sep, 1);
    assert(lines.take(9) =~= lines);
    assert(lines.take(1) =~= seq![lines[0]]);
}

proof fn lemma_joined_prefix(lines: Seq<Seq<char>>, sep: Seq<char>, n: int)
    requires
        0 < n < lines.len(),
    ensures
        text::joined(lines.take(n + 1), sep) == text::joined(lines.take(n), sep) + sep + lines[n],
{
    assert(lines.take(n + 1) =~= lines.take(n).push(lines[n]));
    text::lemma_joined_push(lines.take(n), lines[n], sep);
}

proof fn lemma_thirteen(lines: Seq<Seq<char>>, sep: Seq<char>)
    requires
        lines.len() == 13,
    ensures
        text::joined(lines, sep) == lines[0] + sep + lines[1] + sep + lines[2] + sep + lines[3]
            + sep + lines[4] + sep + lines[5] + sep + lines[6] + sep + lines[7] + sep + lines[8]
            + sep + lines[9] + sep + lines[10] + sep + lines[11] + sep + lines[12],
{
    lemma_joined_prefix(lines, sep, 12);
    lemma_joined_prefix(lines, sep, 11);
    lemma_joined_prefix(lines, sep, 10);
    lemma_joined_prefix(lines, sep, 9);
    assert(lines.take(13) =~= lines);
    lemma_nine(lines.take(9), sep);
}

/// The text of a desktop entry: what it runs is the path and the arguments, each behind a single
/// space; where there are no arguments, a space follows the path.
pub proof fn law_desktop_entry_text(
    app_name: Seq<char>,
    app_path: Seq<char>,
    args: Seq<Seq<char>>,
    marker: Seq<char>,
    spaced: Seq<Seq<char>>,
)
    requires
        spaced.len() == args.len(),
        forall|i: int| 0 <= i < args.len() ==> #[trigger] spaced[i] == " "@ + args[i],
    ensures
        linux::xdg_autostart_data(app_name, app_path, args, marker) == ("# "@ + marker
            + ". Manual edits will be overwritten."@) + "\n"@ + "[Desktop Entry]"@ + "\n"@
            + "Type=Application"@ + "\n"@ + "Version=1.0"@ + "\n"@ + ("Name="@ + app_name) + "\n"@
            + ("Comment="@ + app_name + " startup script"@) + "\n"@ + ("Exec="@ + app_path + (
        if args.len() == 0 {
            " "@
        } else {
            spaced.flatten()
        })) + "\n"@ + "StartupNotify=false"@ + "\n"@ + "Terminal=false"@,
{
    let lines = linux::xdg_autostart_lines(app_name, app_path, args, marker);
    lemma_nine(lines, "\n"@);
    text_laws::law_joined_flat(args, " "@, spaced);
    assert("Exec="@ + app_path + " "@ + text::joined(args, " "@) =~= "Exec="@ + app_path + (" "@
        + text::joined(args, " "@)));
    assert(" "@ + Seq::<char>::empty() =~= " "@);
}

/// The text of a systemd unit: what it runs is the path and the arguments, each behind a single
/// space.
pub proof fn law_unit_text(
    app_name: Seq<char>,
    app_path: Seq<char>,
    args: Seq<Seq<char>>,
    mode: LinuxLaunchMode,
    marker: Seq<char>,
    spaced: Seq<Seq<char>>,
)
    requires
        spaced.len() == args.len(),
        forall|i: int| 0 <= i < args.len() ==> #[trigger] spaced[i] == " "@ + args[i],
    ensures
        ({
            let target = if mode == LinuxLaunchMode::SystemdSystem {
                "multi-user.target"@
            } else {
                "default.target"@
            };
            linux::systemd_service_data(app_name, app_path, args, mode, marker) == ("# "@ + marker
                + ". Manual edits will be overwritten."@) + "\n"@ + "[Unit]"@ + "\n"@ + (
            "Description="@ + app_name) + "\n"@ + ("After="@ + target) + "\n"@ + ""@ + "\n"@
                + "[Service]"@ + "\n"@ + "Type=simple"@ + "\n"@ + ("ExecStart="@ + app_path
                + spaced.flatten()) + "\n"@ + "Restart=on-failure"@ + "\n"@ + "RestartSec=10"@
                + "\n"@ + ""@ + "\n"@ + "[Install]"@ + "\n"@ + ("WantedBy="@ + target)
        }),
{
    let lines = linux::systemd_service_lines(app_name, app_path, args, mode, marker);
    lemma_thirteen(lines, "\n"@);
    text_laws::law_joined_flat(args, " "@, spaced);
    assert("ExecStart="@ + (app_path + " "@ + text::joined(args, " "@)) =~= "ExecStart="@ + app_path
        + (" "@ + text::joined(args, " "@)));
    assert("ExecStart="@ + app_path + Seq::<char>::empty() =~= "ExecStart="@ + app_path);
}

/// What registering by a desktop entry writes: an entry that runs the application's path with each
/// of its own arguments, in their order, behind a single space.
pub proof fn law_desktop_entry_runs_the_application(
    al: &AutoLaunch,
    force: bool,
    home: Option<Seq<u8>>,
    step: EnableStep,
    reg: Registration,
    spaced: Seq<Seq<char>>,
)
    requires
        al.launch_mode == LinuxLaunchMode::XdgAutostart,
        al.enable_starts(force, home, step),
        step == EnableStep::CheckFile(reg) || step == EnableStep::CheckDir(reg),
        spaced.len() == al.args@.len(),
        forall|i: int| 0 <= i < al.args@.len() ==> #[trigger] spaced[i] == " "@ + al.args@[i]@,
    ensures
        reg.data@ == ("# "@ + ("Managed by "@ + al.app_name@)
            + ". Manual edits will be overwritten."@) + "\n"@ + "[Desktop Entry]"@ + "\n"@
            + "Type=Application"@ + "\n"@ + "Version=1.0"@ + "\n"@ + ("Name="@ + al.app_name@)
            + "\n"@ + ("Comment="@ + al.app_name@ + " startup script"@) + "\n"@ + ("Exec="@
            + al.app_path@ + (if al.args@.len() == 0 {
            " "@
        } else {
            spaced.flatten()
        })) + "\n"@ + "StartupNotify=false"@ + "\n"@ + "Terminal=false"@,
{
    let args = text::texts(al.args@);
    law_desktop_entry_text(al.app_name@, al.app_path@, args, "Managed by "@ + al.app_name@, spaced);
}

/// What registering by a systemd unit writes: a unit that runs the application's path with each of
/// its own arguments, in their order, behind a single space.
pub proof fn law_unit_runs_the_application(
    al: &AutoLaunch,
    force: bool,
    home: Option<Seq<u8>>,
    step: EnableStep,
    reg: Registration,
    spaced: Seq<Seq<char>>,
)
    requires
        al.launch_mode != LinuxLaunchMode::XdgAutostart,
        al.enable_starts(force, home, step),
        step == EnableStep::CheckFile(reg) || step == EnableStep::CheckDir(reg),
        spaced.len() == al.args@.len(),
        forall|i: int| 0 <= i < al.args@.len() ==> #[trigger] spaced[i] == " "@ + al.args@[i]@,
    ensures
        ({
            let target = if al.launch_mode == LinuxLaunchMode::SystemdSystem {
                "multi-user.target"@
            } else {
                "default.target"@
            };
            reg.data@ == ("# "@ + ("Managed by "@ + al.app_name@)
                + ". Manual edits will be overwritten."@) + "\n"@ + "[Unit]"@ + "\n"@ + (
            "Description="@ + al.app_name@) + "\n"@ + ("After="@ + target) + "\n"@ + ""@ + "\n"@
                + "[Service]"@ + "\n"@ + "Type=simple"@ + "\n"@ + ("ExecStart="@ + al.app_path@
                + spaced.flatten()) + "\n"@ + "Restart=on-failure"@ + "\n"@ + "RestartSec=10"@
                + "\n"@ + ""@ + "\n"@ + "[Install]"@ + "\n"@ + ("WantedBy="@ + target)
        }),
{
    let args = text::texts(al.args@);
    law_unit_text(
        al.app_name@,
        al.app_path@,
        args,
        al.launch_mode,
        "Managed by "@ + al.app_name@,
        spaced,
    );
}

proof fn lemma_behind_space(line: Seq<char>, key: Seq<char>, n: int)
    requires
        key.len() > 0,
        !text::white_space(key[0]),
        !text::white_space(key.last()),
        0 <= n <= line.len(),
        forall|j: int| 0 <= j < n ==> text::white_space(#[trigger] line[j]),
        key.is_prefix_of(line.skip(n)),
    ensures
        text::trim_start(line) == line.skip(n),
        key.is_prefix_of(text::trim(line)),
        text::trim(line) == line.subrange(n, n + text::trim(line).len()),
        n + text::trim(line).len() <= line.len(),
        forall|j: int|
            n + text::trim(line).len() <= j < line.len() ==> text::white_space(#[trigger] line[j]),
{
    let rest = line.skip(n);
    assert forall|j: int| 0 <= j < key.len() implies line[n + j] == key[j] by {
        assert(rest[j] == line[n + j]);
        assert(key[j] == rest.subrange(0, key.len() as int)[j]);
    }
    assert(line[n] == key[0]);
    text::lemma_trim_start(line, n);
    let ends = text_laws::law_trim_leaves(line);
    assert(line[n + (key.len() - 1)] == key.last());
    assert(ends.0 == n) by {
        if ends.0 < n {
            if ends.0 < ends.1 {
                assert(text::white_space(line[ends.0]));
            } else {
                assert(text::white_space(line[n]));
            }
        } else if ends.0 > n {
            assert(text::white_space(line[n]));
        }
    }
    assert(ends.1 >= n + key.len()) by {
        if ends.1 < n + key.len() {
            assert(text::white_space(line[n + (key.len() - 1)]));
        }
    }
    assert(key =~= text::trim(line).subrange(0, key.len() as int));
}

proof fn lemma_behind_space_found(line: Seq<char>, key: Seq<char>) -> (n: int)
    requires
        key.is_prefix_of(text::trim_start(line)) || key.is_prefix_of(text::trim(line)),
    ensures
        0 <= n <= line.len(),
        forall|j: int| 0 <= j < n ==> text::white_space(#[trigger] line[j]),
        key.is_prefix_of(line.skip(n)),
{
    if key.is_prefix_of(text::trim_start(line)) {
        text_laws::law_trim_start(line);
        line.len() - text::trim_start(line).len()
    } else {
        let ends = text_laws::law_trim_leaves(line);
        assert(key =~= line.skip(ends.0).subrange(0, key.len() as int)) by {
            assert forall|j: int| 0 <= j < key.len() implies key[j] == line[ends.0 + j] by {
                assert(key[j] == text::trim(line).subrange(0, key.len() as int)[j]);
            }
        }
        ends.0
    }
}

/// Content carries a marker exactly if one of its lines starts, behind white space alone, with a
/// number sign, a space and the marker.
pub proof fn law_managed(content: Seq<char>, marker: Seq<char>)
    ensures
        linux::managed(content, marker) <==> exists|i: int, n: int|
            {
                &&& 0 <= i < text::lines(content).len()
                &&& 0 <= n <= text::lines(content)[i].len()
                &&& forall|j: int|
                    0 <= j < n ==> text::white_space(#[trigger] text::lines(content)[i][j])
                &&& ("# "@ + marker).is_prefix_of(#[trigger] text::lines(content)[i].skip(n))
            },
{
    reveal_strlit("# ");
    let lines = text::lines(content);
    let lead = "# "@ + marker;
    if linux::managed(content, marker) {
        let i = choose|i: int|
            0 <= i < lines.len() && linux::managed_line(#[trigger] lines[i], marker);
        let n = lemma_behind_space_found(lines[i], lead);
        assert(lead.is_prefix_of(lines[i].skip(n)));
    }
    if exists|i: int, n: int|
        {
            &&& 0 <= i < lines.len()
            &&& 0 <= n <= lines[i].len()
            &&& forall|j: int| 0 <= j < n ==> text::white_space(#[trigger] lines[i][j])
            &&& lead.is_prefix_of(#[trigger] lines[i].skip(n))
        } {
        let (i, n) = choose|i: int, n: int|
            {
                &&& 0 <= i < lines.len()
                &&& 0 <= n <= lines[i].len()
                &&& forall|j: int| 0 <= j < n ==> text::white_space(#[trigger] lines[i][j])
                &&& lead.is_prefix_of(#[trigger] lines[i].skip(n))
            };
        assert(lead[0] == lines[i].skip(n).subrange(0, lead.len() as int)[0]);
        assert(lines[i][n] == '#');
        text::lemma_trim_start(lines[i], n);
        assert(linux::managed_line(lines[i], marker));
    }
}

/// A registration is this library's exactly if one of the lines that were read starts, behind white
/// space alone, with `# Managed by ` and the application's name; and exactly then is it
/// overwritten without force.
pub proof fn law_owned_by_its_lines(al: &AutoLaunch, content: String, reg: Registration)
    ensures
        ({
            let lines = text::lines(content@);
            let lead = "# "@ + ("Managed by "@ + al.app_name@);
            let own = exists|i: int, n: int|
                {
                    &&& 0 <= i < lines.len()
                    &&& 0 <= n <= lines[i].len()
                    &&& forall|j: int| 0 <= j < n ==> text::white_space(#[trigger] lines[i][j])
                    &&& lead.is_prefix_of(#[trigger] lines[i].skip(n))
                };
            &&& al.after_owned_read(Ok(content)) == OwnedStep::Finished(Ok(own))
            &&& own ==> al.after_file_read(reg, Ok(content)) == EnableStep::CheckDir(reg)
            &&& !own ==> al.after_file_read(reg, Ok(content)) == EnableStep::Finished(
                Err(LaunchError::RegistrationNotOwned(reg.file)),
            )
        }),
{
    law_managed(content@, "Managed by "@ + al.app_name@);
}

/// What cannot be read is reported, whether it is asked for or to be overwritten. A file that does
/// not exist is nobody's.
pub proof fn law_owned_without_content(al: &AutoLaunch, e: IoError, file: Vec<u8>)
    ensures
        al.after_owned_read(Err(e)) == OwnedStep::Finished(Err(LaunchError::Io(e))),
        AutoLaunch::after_owned_checked(file, false) == OwnedStep::Finished(Ok(false)),
        AutoLaunch::after_owned_checked(file, true) == OwnedStep::ReadFile(file),
{
}

proof fn lemma_skip_lines(lines: Seq<Seq<char>>, key: Seq<char>, k: int)
    requires
        0 <= k <= lines.len(),
        forall|j: int| 0 <= j < k ==> !key.is_prefix_of(text::trim(#[trigger] lines[j])),
    ensures
        linux::command_path(lines, key) == linux::command_path(lines.skip(k), key),
    decreases k,
{
    if k > 0 {
        assert(!key.is_prefix_of(text::trim(lines[0])));
        let rest = lines.drop_first();
        assert forall|j: int| 0 <= j < k - 1 implies !key.is_prefix_of(
            text::trim(#[trigger] rest[j]),
        ) by {
            assert(rest[j] == lines[j + 1]);
        }
        lemma_skip_lines(rest, key, k - 1);
        assert(rest.skip(k - 1) =~= lines.skip(k));
    } else {
        assert(lines.skip(0) =~= lines);
    }
}

proof fn lemma_no_key_before(lines: Seq<Seq<char>>, key: Seq<char>, k: int)
    requires
        0 <= k <= lines.len(),
        forall|j: int, m: int|
            {
                &&& 0 <= j < k
                &&& 0 <= m <= lines[j].len()
                &&& forall|x: int| 0 <= x < m ==> text::white_space(#[trigger] lines[j][x])
            } ==> !key.is_prefix_of(#[trigger] lines[j].skip(m)),
    ensures
        forall|j: int| 0 <= j < k ==> !key.is_prefix_of(text::trim(#[trigger] lines[j])),
{
    assert forall|j: int| 0 <= j < k implies !key.is_prefix_of(text::trim(#[trigger] lines[j])) by {
        if key.is_prefix_of(text::trim(lines[j])) {
            let m = lemma_behind_space_found(lines[j], key);
            assert(key.is_prefix_of(lines[j].skip(m)));
        }
    }
}

proof fn lemma_key_line(line: Seq<char>, key: Seq<char>, n: int, begin: int, end: int)
    requires
        key.len() > 0,
        !text::white_space(key[0]),
        !text::white_space(key.last()),
        0 <= n,
        n + key.len() <= begin <= end <= line.len(),
        forall|j: int| 0 <= j < n ==> text::white_space(#[trigger] line[j]),
        key.is_prefix_of(line.skip(n)),
        forall|j: int| n + key.len() <= j < begin ==> text::white_space(#[trigger] line[j]),
        forall|j: int| begin <= j < end ==> !text::white_space(#[trigger] line[j]),
        end < line.len() ==> text::white_space(line[end]),
        begin == end ==> end == line.len(),
    ensures
        key.is_prefix_of(text::trim(line)),
        begin < end ==> text::first_word(text::trim(line).skip(key.len() as int)) == Some(
            line.subrange(begin, end),
        ),
        begin == end ==> text::first_word(text::trim(line).skip(key.len() as int)) is None,
{
    lemma_behind_space(line, key, n);
    let t = text::trim(line);
    let base = n + key.len();
    let rest = t.skip(key.len() as int);
    assert forall|j: int| 0 <= j < rest.len() implies rest[j] == line[base + j] by {}
    if begin < end {
        assert(!text::white_space(line[end - 1]));
        assert(end <= n + t.len());
        assert forall|j: int| 0 <= j < begin - base implies text::white_space(#[trigger] rest[j]) by {
            assert(text::white_space(line[base + j]));
        }
        assert forall|j: int| begin - base <= j < end - base implies !text::white_space(
            #[trigger] rest[j],
        ) by {
            assert(!text::white_space(line[base + j]));
        }
        text_laws::law_first_word(rest, begin - base, end - base);
        assert(rest.subrange(begin - base, end - base) =~= line.subrange(begin, end));
    } else {
        assert forall|j: int| 0 <= j < rest.len() implies text::white_space(#[trigger] rest[j]) by {
            assert(text::white_space(line[base + j]));
        }
        text_laws::law_no_first_word(rest);
    }
}

/// The path in the content of a registration file: in the first line that starts, behind white space
/// alone, with the key, the first word behind the key. `line` is the index of that line, `key_at`
/// where the key stands in it, and the word reaches from `begin` to `end`; where nothing but white
/// space follows the key, both are the line's end, and there is no path.
pub proof fn law_path_in_content(
    content: Seq<char>,
    mode: LinuxLaunchMode,
    line: int,
    key_at: int,
    begin: int,
    end: int,
)
    requires
        ({
            let key = if mode == LinuxLaunchMode::XdgAutostart { "Exec="@ } else { "ExecStart="@ };
            let lines = text::lines(content);
            let l = lines[line];
            &&& 0 <= line < lines.len()
            &&& 0 <= key_at
            &&& key_at + key.len() <= begin <= end <= l.len()
            &&& forall|j: int| 0 <= j < key_at ==> text::white_space(#[trigger] l[j])
            &&& key.is_prefix_of(l.skip(key_at))
            &&& forall|j: int|
                key_at + key.len() <= j < begin ==> text::white_space(#[trigger] l[j])
            &&& forall|j: int| begin <= j < end ==> !text::white_space(#[trigger] l[j])
            &&& end < l.len() ==> text::white_space(l[end])
            &&& begin == end ==> end == l.len()
            &&& forall|j: int, m: int|
                {
                    &&& 0 <= j < line
                    &&& 0 <= m <= lines[j].len()
                    &&& forall|x: int| 0 <= x < m ==> text::white_space(#[trigger] lines[j][x])
                } ==> !key.is_prefix_of(#[trigger] lines[j].skip(m))
        }),
    ensures
        begin < end ==> linux::command_path(text::lines(content), linux::command_key(mode)) == Some(
            text::lines(content)[line].subrange(begin, end),
        ),
        begin == end ==> linux::command_path(
            text::lines(content),
            linux::command_key(mode),
        ) is None,
{
    reveal_strlit("Exec=");
    reveal_strlit("ExecStart=");
    let key = linux::command_key(mode);
    let lines = text::lines(content);
    lemma_no_key_before(lines, key, line);
    lemma_skip_lines(lines, key, line);
    assert(lines.skip(line)[0] == lines[line]);
    lemma_key_line(lines[line], key, key_at, begin, end);
}

/// Where no line has the key there is no path.
pub proof fn law_no_path_in_content(content: Seq<char>, mode: LinuxLaunchMode)
    requires
        ({
            let key = if mode == LinuxLaunchMode::XdgAutostart { "Exec="@ } else { "ExecStart="@ };
            let lines = text::lines(content);
            forall|j: int, m: int|
                {
                    &&& 0 <= j < lines.len()
                    &&& 0 <= m <= lines[j].len()
                    &&& forall|x: int| 0 <= x < m ==> text::white_space(#[trigger] lines[j][x])
                } ==> !key.is_prefix_of(#[trigger] lines[j].skip(m))
        }),
    ensures
        linux::command_path(text::lines(content), linux::command_key(mode)) is None,
{
    let key = linux::command_key(mode);
    let lines = text::lines(content);
    lemma_no_key_before(lines, key, lines.len() as int);
    lemma_skip_lines(lines, key, lines.len() as int);
}

/// The path that is looked up is the one in the file, whatever the path of the application that
/// asks: in the first line that starts, behind white space alone, with the key, the first word
/// behind the key. `line` is the index of that line, `key_at` where the key stands in it, and the
/// word reaches from `begin` to `end`; where nothing but white space follows the key, both are the
/// line's end, and there is no path.
pub proof fn law_looked_up_path(
    al: &AutoLaunch,
    content: String,
    step: PathStep,
    line: int,
    key_at: int,
    begin: int,
    end: int,
)
    requires
        al.after_path_read(Ok(content), step),
        ({
            let key = if al.launch_mode == LinuxLaunchMode::XdgAutostart {
                "Exec="@
            } else {
                "ExecStart="@
            };
            let lines = text::lines(content@);
            let l = lines[line];
            &&& 0 <= line < lines.len()
            &&& 0 <= key_at
            &&& key_at + key.len() <= begin <= end <= l.len()
            &&& forall|j: int| 0 <= j < key_at ==> text::white_space(#[trigger] l[j])
            &&& key.is_prefix_of(l.skip(key_at))
            &&& forall|j: int|
                key_at + key.len() <= j < begin ==> text::white_space(#[trigger] l[j])
            &&& forall|j: int| begin <= j < end ==> !text::white_space(#[trigger] l[j])
            &&& end < l.len() ==> text::white_space(l[end])
            &&& begin == end ==> end == l.len()
            &&& forall|j: int, m: int|
                {
                    &&& 0 <= j < line
                    &&& 0 <= m <= lines[j].len()
                    &&& forall|x: int| 0 <= x < m ==> text::white_space(#[trigger] lines[j][x])
                } ==> !key.is_prefix_of(#[trigger] lines[j].skip(m))
        }),
    ensures
        begin < end ==> (step matches PathStep::Finished(Ok(Some(path))) && path@ == text::lines(
            content@,
        )[line].subrange(begin, end)),
        begin == end ==> step == PathStep::Finished(Ok(None)),
{
    law_path_in_content(content@, al.launch_mode, line, key_at, begin, end);
}

/// Where no line of the file has the key, no path is found.
pub proof fn law_looked_up_nothing(al: &AutoLaunch, content: String, step: PathStep)
    requires
        al.after_path_read(Ok(content), step),
        ({
            let key = if al.launch_mode == LinuxLaunchMode::XdgAutostart {
                "Exec="@
            } else {
                "ExecStart="@
            };
            let lines = text::lines(content@);
            forall|j: int, m: int|
                {
                    &&& 0 <= j < lines.len()
                    &&& 0 <= m <= lines[j].len()
                    &&& forall|x: int| 0 <= x < m ==> text::white_space(#[trigger] lines[j][x])
                } ==> !key.is_prefix_of(#[trigger] lines[j].skip(m))
        }),
    ensures
        step == PathStep::Finished(Ok(None)),
{
    law_no_path_in_content(content@, al.launch_mode);
}

/// What is looked up depends on the file alone: applications of one mode find the same in it. That
/// the file cannot be read is reported.
pub proof fn law_looked_up_in_the_file(
    a: &AutoLaunch,
    b: &AutoLaunch,
    content: String,
    e: IoError,
    first: PathStep,
    second: PathStep,
)
    requires
        a.launch_mode == b.launch_mode,
        a.after_path_read(Ok(content), first),
        b.after_path_read(Ok(content), second),
    ensures
        first matches PathStep::Finished(Ok(p)) && (second matches PathStep::Finished(Ok(q))
            && match p {
            Some(path) => q matches Some(other) && path@ == other@,
            None => q is None,
        }),
        a.after_path_read(Err(e), PathStep::Finished(Err(LaunchError::Io(e)))),
        forall|step: PathStep| #[trigger]
            a.after_path_read(Err(e), step) ==> step == PathStep::Finished(Err(LaunchError::Io(e))),
{
}

/// Where registrations stand: desktop entries in `.config/autostart` below the home directory, units
/// of the user in `.config/systemd/user` below it, units of the system in `/etc/systemd/system`.
pub proof fn law_directories(home: Seq<u8>)
    ensures
        linux::xdg_autostart_dir(None) is None,
        linux::xdg_autostart_dir(Some(home)) == Some(
            host::path_joined(
                host::path_joined(home, encode_utf8(".config"@)),
                encode_utf8("autostart"@),
            ),
        ),
        linux::systemd_dir(LinuxLaunchMode::SystemdUser, None) is None,
        linux::systemd_dir(LinuxLaunchMode::SystemdUser, Some(home)) == Some(
            host::path_joined(
                host::path_joined(
                    host::path_joined(home, encode_utf8(".config"@)),
                    encode_utf8("systemd"@),
                ),
                encode_utf8("user"@),
            ),
        ),
        forall|h: Option<Seq<u8>>| #[trigger]
            linux::systemd_dir(LinuxLaunchMode::SystemdSystem, h) == Some(
                encode_utf8("/etc/systemd/system"@),
            ),
{
    reveal_with_fuel(host::descended, 4);
    assert(seq![".config"@, "autostart"@].drop_last() =~= seq![".config"@]);
    assert(seq![".config"@].drop_last() =~= seq![]);
    assert(seq![".config"@, "systemd"@, "user"@].drop_last() =~= seq![".config"@, "systemd"@]);
    assert(seq![".config"@, "systemd"@].drop_last() =~= seq![".config"@]);
}

/// The file of a registration is the application's name, with `.desktop` or `.service` behind it,
/// in the directory of its mode.
pub proof fn law_registration_place(al: &AutoLaunch, home: Option<Seq<u8>>)
    ensures
        linux::registration_dir(al.launch_mode, home) == match al.launch_mode {
            LinuxLaunchMode::XdgAutostart => linux::xdg_autostart_dir(home),
            LinuxLaunchMode::SystemdUser => linux::systemd_dir(LinuxLaunchMode::SystemdUser, home),
            LinuxLaunchMode::SystemdSystem => Some(encode_utf8("/etc/systemd/system"@)),
        },
        al.registration_file(home) == match linux::registration_dir(al.launch_mode, home) {
            Some(dir) => Some(
                host::path_joined(
                    dir,
                    encode_utf8(
                        al.app_name@ + (if al.launch_mode == LinuxLaunchMode::XdgAutostart {
                            ".desktop"@
                        } else {
                            ".service"@
                        }),
                    ),
                ),
            ),
            None => None,
        },
        forall|dir: Seq<u8>, name: Seq<char>| #[trigger]
            linux::file_in(Some(dir), name) == Some(host::path_joined(dir, encode_utf8(name))),
        forall|name: Seq<char>| #[trigger] linux::file_in(None, name) is None,
{
}

/// How registering starts: at the registration's place, with its file, or with its directory where
/// what stands there does not count. Where the place is not known, that is reported.
pub proof fn law_enable_first_step(
    al: &AutoLaunch,
    force: bool,
    home: Option<Seq<u8>>,
    step: EnableStep,
)
    requires
        al.enable_starts(force, home, step),
    ensures
        al.registration_file(home) matches Some(file) ==> match step {
            EnableStep::CheckFile(reg) => !force && reg.file@ == file
                && linux::registration_dir(al.launch_mode, home) == Some(reg.dir@),
            EnableStep::CheckDir(reg) => force && reg.file@ == file
                && linux::registration_dir(al.launch_mode, home) == Some(reg.dir@),
            _ => false,
        },
        al.registration_file(home) is None ==> (step matches EnableStep::Finished(
            Err(LaunchError::Io(io)),
        ) && io.kind == IoErrorKind::NotFound && io.os_code is None && io.message@
            == "Failed to find home directory"@),
{
}

/// What follows the host's answers while a registration is being made, up to its writing. The
/// registration that was begun with is the one that is written.
pub proof fn law_enable_steps(reg: Registration, e: IoError)
    ensures
        AutoLaunch::after_file_checked(reg, true) == EnableStep::ReadFile(reg),
        AutoLaunch::after_file_checked(reg, false) == EnableStep::CheckDir(reg),
        AutoLaunch::after_dir_checked(reg, true) == EnableStep::WriteFile(reg),
        AutoLaunch::after_dir_checked(reg, false) == EnableStep::CreateDir(reg),
        AutoLaunch::after_dir_created(reg, Ok(())) == EnableStep::WriteFile(reg),
        AutoLaunch::after_dir_created(reg, Err(e)) == if e.kind == IoErrorKind::AlreadyExists {
            EnableStep::WriteFile(reg)
        } else {
            EnableStep::Finished(Err(LaunchError::Io(e)))
        },
{
}

/// A file that cannot be read, and one that cannot be written, is reported as the host reports it.
pub proof fn law_enable_failures(al: &AutoLaunch, reg: Registration, e: IoError, step: EnableStep)
    requires
        al.after_file_written(Err(e), step),
    ensures
        al.after_file_read(reg, Err(e)) == EnableStep::Finished(Err(LaunchError::Io(e))),
        step == EnableStep::Finished(Err(LaunchError::Io(e))),
{
}

/// What follows the writing: nothing for a desktop entry, and for a unit `daemon-reload`, then
/// `enable` with the unit's name, to the user's manager or to the system's.
pub proof fn law_enable_commands(
    al: &AutoLaunch,
    written: EnableStep,
    reloaded: EnableStep,
)
    requires
        al.after_file_written(Ok(()), written),
        al.after_daemon_reloaded(reloaded),
    ensures
        al.launch_mode == LinuxLaunchMode::XdgAutostart ==> written == EnableStep::Finished(Ok(())),
        al.launch_mode == LinuxLaunchMode::SystemdUser ==> (
        written matches EnableStep::ReloadDaemon(args) && args@.len() == 2 && args@[0]@ == "--user"@
            && args@[1]@ == "daemon-reload"@),
        al.launch_mode == LinuxLaunchMode::SystemdSystem ==> (
        written matches EnableStep::ReloadDaemon(args) && args@.len() == 1 && args@[0]@
            == "daemon-reload"@),
        al.launch_mode == LinuxLaunchMode::SystemdUser ==> (
        reloaded matches EnableStep::EnableUnit(args) && args@.len() == 3 && args@[0]@ == "--user"@
            && args@[1]@ == "enable"@ && args@[2]@ == al.app_name@ + ".service"@),
        al.launch_mode == LinuxLaunchMode::SystemdSystem ==> (
        reloaded matches EnableStep::EnableUnit(args) && args@.len() == 2 && args@[0]@ == "enable"@
            && args@[1]@ == al.app_name@ + ".service"@),
{
    if let EnableStep::ReloadDaemon(args) = written {
        lemma_args(al.launch_mode, args@, seq!["daemon-reload"@]);
    }
    if let EnableStep::EnableUnit(args) = reloaded {
        lemma_args(al.launch_mode, args@, seq!["enable"@, al.unit()]);
    }
}

proof fn lemma_args(mode: LinuxLaunchMode, args: Seq<String>, rest: Seq<Seq<char>>)
    requires
        text::texts(args) == linux::systemctl_args(mode, rest),
    ensures
        mode == LinuxLaunchMode::SystemdUser ==> args.len() == rest.len() + 1 && args[0]@
            == "--user"@ && forall|i: int| 0 < i <= rest.len() ==> (#[trigger] args[i])@ == rest[i
            - 1],
        mode != LinuxLaunchMode::SystemdUser ==> args.len() == rest.len() && forall|i: int|
            0 <= i < rest.len() ==> (#[trigger] args[i])@ == rest[i],
{
    text_laws::law_texts(args);
    let all = text::texts(args);
    assert(all.len() == args.len());
    if mode == LinuxLaunchMode::SystemdUser {
        assert(all[0] == args[0]@);
        assert forall|i: int| 0 < i <= rest.len() implies (#[trigger] args[i])@ == rest[i - 1] by {
            assert(all[i] == args[i]@);
        }
    } else {
        assert forall|i: int| 0 <= i < rest.len() implies (#[trigger] args[i])@ == rest[i] by {
            assert(all[i] == args[i]@);
        }
    }
}

/// How `systemctl enable` is judged: by whether it succeeded. A failure is reported with all that it
/// wrote to its standard error.
pub proof fn law_unit_enabled(
    success: bool,
    stderr: Seq<char>,
    r: Result<(), LaunchError>,
    output: CommandOutput,
    e: IoError,
    step: EnableStep,
    failed: EnableStep,
)
    requires
        linux::enable_verdict(success, stderr, r),
        AutoLaunch::after_unit_enabled(Ok(output), step),
        AutoLaunch::after_unit_enabled(Err(e), failed),
    ensures
        success ==> r is Ok,
        !success ==> (r matches Err(LaunchError::Io(io)) && io.kind == IoErrorKind::Other
            && io.os_code is None && io.message@ == "Failed to enable systemd service: "@ + stderr),
        output.success ==> (step matches EnableStep::Finished(done) && done is Ok),
        !output.success ==> (step matches EnableStep::Finished(Err(LaunchError::Io(io))) && io.kind
            == IoErrorKind::Other && io.os_code is None && io.message@
            == "Failed to enable systemd service: "@ + host::utf8_lossy(output.stderr@)),
        failed == EnableStep::Finished(Err(LaunchError::Io(e))),
{
}

/// How removing starts: with the desktop entry at its place, or with `systemctl disable` and the
/// unit's name, to the user's manager or to the system's.
pub proof fn law_disable_first_step(al: &AutoLaunch, home: Option<Seq<u8>>, step: DisableStep)
    requires
        al.disable_starts(home, step),
    ensures
        al.launch_mode == LinuxLaunchMode::XdgAutostart ==> match al.registration_file(home) {
            Some(place) => step matches DisableStep::CheckFile(file) && file@ == place,
            None => step matches DisableStep::Finished(Err(LaunchError::Io(io))) && io.kind
                == IoErrorKind::NotFound && io.os_code is None && io.message@
                == "Failed to find home directory"@,
        },
        al.launch_mode == LinuxLaunchMode::SystemdUser ==> (
        step matches DisableStep::DisableUnit(args) && args@.len() == 3 && args@[0]@ == "--user"@
            && args@[1]@ == "disable"@ && args@[2]@ == al.app_name@ + ".service"@),
        al.launch_mode == LinuxLaunchMode::SystemdSystem ==> (
        step matches DisableStep::DisableUnit(args) && args@.len() == 2 && args@[0]@ == "disable"@
            && args@[1]@ == al.app_name@ + ".service"@),
{
    if let DisableStep::DisableUnit(args) = step {
        if al.launch_mode != LinuxLaunchMode::XdgAutostart {
            lemma_args(al.launch_mode, args@, seq!["disable"@, al.unit()]);
        }
    }
}

/// That there was nothing to disable is said by either of two phrases, wherever they stand.
pub proof fn law_nothing_to_disable(stderr: Seq<char>)
    ensures
        linux::nothing_to_disable(stderr) <==> exists|before: Seq<char>, after: Seq<char>|
            stderr == #[trigger] (before + "No such file or directory"@ + after) || stderr == before
                + "not loaded"@ + after,
{
    if linux::nothing_to_disable(stderr) {
        if text::occurs(stderr, "No such file or directory"@) {
            let (before, after) = text_laws::law_occurs_only(
                stderr,
                "No such file or directory"@,
            );
            assert(stderr == before + "No such file or directory"@ + after);
        } else {
            let (before, after) = text_laws::law_occurs_only(stderr, "not loaded"@);
            let other = before + "No such file or directory"@ + after;
            assert(stderr == other || stderr == before + "not loaded"@ + after);
        }
    }
    if exists|before: Seq<char>, after: Seq<char>|
        stderr == #[trigger] (before + "No such file or directory"@ + after) || stderr == before
            + "not loaded"@ + after {
        let (before, after) = choose|before: Seq<char>, after: Seq<char>|
            stderr == #[trigger] (before + "No such file or directory"@ + after) || stderr == before
                + "not loaded"@ + after;
        text_laws::law_occurs(before, "No such file or directory"@, after);
        text_laws::law_occurs(before, "not loaded"@, after);
    }
}

/// How `systemctl disable` is judged: it may fail where there was nothing to disable. Any other
/// failure is reported with all that it wrote to its standard error, and the unit's file stays;
/// otherwise the file at its place comes next.
pub proof fn law_unit_disabled(
    al: &AutoLaunch,
    home: Option<Seq<u8>>,
    success: bool,
    stderr: Seq<char>,
    r: Result<(), LaunchError>,
    output: CommandOutput,
    e: IoError,
    step: DisableStep,
    failed: DisableStep,
)
    requires
        linux::disable_verdict(success, stderr, r),
        al.after_unit_disabled(home, Ok(output), step),
        al.after_unit_disabled(home, Err(e), failed),
    ensures
        success || linux::nothing_to_disable(stderr) ==> r is Ok,
        !success && !linux::nothing_to_disable(stderr) ==> (r matches Err(LaunchError::Io(io))
            && io.kind == IoErrorKind::Other && io.os_code is None && io.message@
            == "Failed to disable systemd service: "@ + stderr),
        output.success || linux::nothing_to_disable(host::utf8_lossy(output.stderr@))
            ==> match al.registration_file(home) {
            Some(place) => step matches DisableStep::CheckFile(file) && file@ == place,
            None => step matches DisableStep::Finished(Err(LaunchError::Io(io))) && io.kind
                == IoErrorKind::NotFound && io.os_code is None && io.message@
                == "Failed to find home directory"@,
        },
        !output.success && !linux::nothing_to_disable(host::utf8_lossy(output.stderr@)) ==> (
        step matches DisableStep::Finished(Err(LaunchError::Io(io))) && io.kind
            == IoErrorKind::Other && io.os_code is None && io.message@
            == "Failed to disable systemd service: "@ + host::utf8_lossy(output.stderr@)),
        failed == DisableStep::Finished(Err(LaunchError::Io(e))),
{
}

/// What follows the host's answers while a registration file is being removed: only the file that
/// was asked for is removed, and only if it is there. When it is gone, nothing is left to do for a
/// desktop entry, and `daemon-reload` for a unit.
pub proof fn law_disable_steps(
    al: &AutoLaunch,
    file: Vec<u8>,
    e: IoError,
    found: DisableStep,
    missing: DisableStep,
    removed: DisableStep,
    failed: DisableStep,
)
    requires
        al.after_removal_checked(file, true, found),
        al.after_removal_checked(file, false, missing),
        al.after_file_removed(Ok(()), removed),
        al.after_file_removed(Err(e), failed),
    ensures
        found == DisableStep::RemoveFile(file),
        failed == DisableStep::Finished(Err(LaunchError::Io(e))),
        al.launch_mode == LinuxLaunchMode::XdgAutostart ==> missing == DisableStep::Finished(Ok(()))
            && removed == DisableStep::Finished(Ok(())),
        al.launch_mode == LinuxLaunchMode::SystemdUser ==> {
            &&& missing matches DisableStep::ReloadDaemon(args) && args@.len() == 2 && args@[0]@
                == "--user"@ && args@[1]@ == "daemon-reload"@
            &&& removed matches DisableStep::ReloadDaemon(args) && args@.len() == 2 && args@[0]@
                == "--user"@ && args@[1]@ == "daemon-reload"@
        },
        al.launch_mode == LinuxLaunchMode::SystemdSystem ==> {
            &&& missing matches DisableStep::ReloadDaemon(args) && args@.len() == 1 && args@[0]@
                == "daemon-reload"@
            &&& removed matches DisableStep::ReloadDaemon(args) && args@.len() == 1 && args@[0]@
                == "daemon-reload"@
        },
{
    if let DisableStep::ReloadDaemon(args) = missing {
        lemma_args(al.launch_mode, args@, seq!["daemon-reload"@]);
    }
    if let DisableStep::ReloadDaemon(args) = removed {
        lemma_args(al.launch_mode, args@, seq!["daemon-reload"@]);
    }
}

/// How the questions start: at the registration's place; whether a unit is enabled is asked of
/// `systemctl is-enabled`, with the unit's name, of the user's manager or of the system's.
pub proof fn law_questions_first_step(
    al: &AutoLaunch,
    home: Option<Seq<u8>>,
    owned: OwnedStep,
    looked_up: PathStep,
    enabled: EnabledStep,
)
    requires
        al.owned_starts(home, owned),
        al.path_starts(home, looked_up),
        al.enabled_starts(home, enabled),
    ensures
        al.registration_file(home) matches Some(place) ==> {
            &&& owned matches OwnedStep::CheckFile(file) && file@ == place
            &&& looked_up matches PathStep::CheckFile(file) && file@ == place
            &&& al.launch_mode == LinuxLaunchMode::XdgAutostart ==> (
            enabled matches EnabledStep::CheckFile(file) && file@ == place)
        },
        al.registration_file(home) is None ==> {
            &&& owned matches OwnedStep::Finished(Err(e)) && error::home_not_found(e)
            &&& looked_up matches PathStep::Finished(Err(e)) && error::home_not_found(e)
            &&& al.launch_mode == LinuxLaunchMode::XdgAutostart ==> (
            enabled matches EnabledStep::Finished(Err(e)) && error::home_not_found(e))
        },
        al.launch_mode == LinuxLaunchMode::SystemdUser ==> (
        enabled matches EnabledStep::QueryUnit(args) && args@.len() == 3 && args@[0]@ == "--user"@
            && args@[1]@ == "is-enabled"@ && args@[2]@ == al.app_name@ + ".service"@),
        al.launch_mode == LinuxLaunchMode::SystemdSystem ==> (
        enabled matches EnabledStep::QueryUnit(args) && args@.len() == 2 && args@[0]@
            == "is-enabled"@ && args@[1]@ == al.app_name@ + ".service"@),
{
    if let EnabledStep::QueryUnit(args) = enabled {
        if al.launch_mode != LinuxLaunchMode::XdgAutostart {
            lemma_args(al.launch_mode, args@, seq!["is-enabled"@, al.unit()]);
        }
    }
}

/// The arguments of `systemctl` name the user's manager first, in the user's mode alone, and then
/// what they were asked for.
pub proof fn law_systemctl_args(rest: Seq<Seq<char>>)
    ensures
        linux::systemctl_args(LinuxLaunchMode::SystemdUser, rest) == seq!["--user"@] + rest,
        linux::systemctl_args(LinuxLaunchMode::SystemdSystem, rest) == rest,
{
}

/// The marker and the unit are named after the application.
pub proof fn law_names(al: &AutoLaunch)
    ensures
        al.marker() == "Managed by "@ + al.app_name@,
        al.unit() == al.app_name@ + ".service"@,
{
}

} // verus!
