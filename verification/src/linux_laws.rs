//! What holds of the registrations on Linux, whatever the host answers.

use vstd::prelude::*;

use crate::error;
use crate::error::{IoError, IoErrorKind, LaunchError};
use crate::host;
use crate::host::CommandOutput;
use crate::linux;
use crate::linux::{
    AutoLaunch, DisableStep, EnableStep, EnabledStep, LinuxLaunchMode, OwnedStep, PathStep,
    Registration,
};
use crate::text;

verus! {

/// Whether some line has the key in front of it.
pub open spec fn has_key_line(lines: Seq<Seq<char>>, key: Seq<char>) -> bool {
    exists|i: int| 0 <= i < lines.len() && key.is_prefix_of(text::trim(#[trigger] lines[i]))
}

/// What stands above the command line of a registration.
pub open spec fn header(al: &AutoLaunch) -> Seq<char> {
    text::joined(header_lines(al), "\n"@)
}

/// The lines above the command line of a registration.
pub open spec fn header_lines(al: &AutoLaunch) -> Seq<Seq<char>> {
    if al.launch_mode == LinuxLaunchMode::XdgAutostart {
        al.registration_lines().take(6)
    } else {
        al.registration_lines().take(7)
    }
}

proof fn lemma_managed_first_line(marker: Seq<char>, rest: Seq<char>)
    requires
        text::one_line(marker),
    ensures
        linux::managed(linux::marker_line(marker) + "\n"@ + rest, marker),
{
    reveal_strlit("# ");
    reveal_strlit(". Manual edits will be overwritten.");
    let line = linux::marker_line(marker);
    assert(text::one_line(line)) by {
        assert forall|i: int| 0 <= i < line.len() implies #[trigger] line[i] != '\n' by {
            if 2 <= i < 2 + marker.len() {
                assert(line[i] == marker[i - 2]);
            } else if i >= 2 + marker.len() {
                assert(line[i] == ". Manual edits will be overwritten."@[i - 2 - marker.len()]);
            }
        }
    }
    text::lemma_lines_step(line, rest);
    let s = line + "\n"@ + rest;
    let first = text::lines(s)[0];
    assert(line.last() == '.');
    assert(first == line);
    text::lemma_trim_start(first, 0);
    assert(first.skip(0) =~= first);
    assert(("# "@ + marker) =~= first.subrange(0, 2 + marker.len() as int));
    assert(linux::managed_line(text::lines(s)[0], marker));
}

/// A desktop entry carries the marker that it was written with, if the marker is a single line.
pub proof fn law_xdg_data_is_managed(
    app_name: Seq<char>,
    app_path: Seq<char>,
    args: Seq<Seq<char>>,
    marker: Seq<char>,
)
    requires
        text::one_line(marker),
    ensures
        linux::managed(linux::xdg_autostart_data(app_name, app_path, args, marker), marker),
{
    let parts = linux::xdg_autostart_lines(app_name, app_path, args, marker);
    text::lemma_joined_front(parts, "\n"@);
    lemma_managed_first_line(marker, text::joined(parts.drop_first(), "\n"@));
}

/// A systemd unit carries the marker that it was written with, if the marker is a single line.
pub proof fn law_systemd_data_is_managed(
    app_name: Seq<char>,
    app_path: Seq<char>,
    args: Seq<Seq<char>>,
    mode: LinuxLaunchMode,
    marker: Seq<char>,
)
    requires
        text::one_line(marker),
    ensures
        linux::managed(linux::systemd_service_data(app_name, app_path, args, mode, marker), marker),
{
    let parts = linux::systemd_service_lines(app_name, app_path, args, mode, marker);
    text::lemma_joined_front(parts, "\n"@);
    lemma_managed_first_line(marker, text::joined(parts.drop_first(), "\n"@));
}

/// A marker that is extended at its end stays recognized: what carries the longer marker carries
/// the shorter one.
pub proof fn law_extended_marker_is_recognized(
    content: Seq<char>,
    marker: Seq<char>,
    extension: Seq<char>,
)
    requires
        linux::managed(content, marker + extension),
    ensures
        linux::managed(content, marker),
{
    let lines = text::lines(content);
    let i = choose|i: int|
        0 <= i < lines.len() && linux::managed_line(#[trigger] lines[i], marker + extension);
    let short = "# "@ + marker;
    let line = text::trim_start(lines[i]);
    assert("# "@ + (marker + extension) =~= short + extension);
    assert(short =~= (short + extension).subrange(0, short.len() as int));
    assert(short =~= line.subrange(0, short.len() as int));
    assert(linux::managed_line(text::lines(content)[i], marker));
}

proof fn lemma_marker_one_line(al: &AutoLaunch)
    requires
        text::one_line(al.app_name@),
    ensures
        text::one_line(al.marker()),
{
    reveal_strlit("Managed by ");
    assert forall|i: int| 0 <= i < al.marker().len() implies #[trigger] al.marker()[i] != '\n' by {
        if i >= 11 {
            assert(al.marker()[i] == al.app_name@[i - 11]);
        } else {
            assert(al.marker()[i] == "Managed by "@[i]);
        }
    }
}

/// Once its registration stands, an application whose name is a single line is told that the
/// registration is this library's, and registering it again is not refused.
pub proof fn law_written_registration_is_owned(
    al: &AutoLaunch,
    reg: Registration,
    home: Option<Seq<u8>>,
    content: String,
)
    requires
        text::one_line(al.app_name@),
        al.registers(reg, home),
        content@ == reg.data@,
    ensures
        al.after_owned_read(Ok(content)) == OwnedStep::Finished(Ok(true)),
        al.after_file_read(reg, Ok(content)) == EnableStep::CheckDir(reg),
{
    lemma_marker_one_line(al);
    law_xdg_data_is_managed(al.app_name@, al.app_path@, text::texts(al.args@), al.marker());
    law_systemd_data_is_managed(
        al.app_name@,
        al.app_path@,
        text::texts(al.args@),
        al.launch_mode,
        al.marker(),
    );
}

proof fn lemma_trim_drop_last(s: Seq<char>)
    requires
        s.len() > 0,
        text::white_space(s.last()),
    ensures
        text::trim(s.drop_last()) == text::trim(s),
    decreases s.len(),
{
    if text::white_space(s[0]) {
        if s.len() > 1 {
            lemma_trim_drop_last(s.drop_first());
            assert(s.drop_last().drop_first() =~= s.drop_first().drop_last());
        } else {
            assert(s.drop_first() =~= s.drop_last());
        }
    }
}

proof fn lemma_trim_chomp(s: Seq<char>)
    ensures
        text::trim(text::chomp(s)) == text::trim(s),
{
    if s.len() > 0 && s.last() == '\r' {
        lemma_trim_drop_last(s);
    }
}

proof fn lemma_below_header(above: Seq<char>, rest: Seq<char>, key: Seq<char>)
    requires
        key.len() > 0,
        !has_key_line(text::lines(above), key),
    ensures
        linux::command_path(text::lines(above + "\n"@ + rest), key) == linux::command_path(
            text::lines(rest),
            key,
        ),
    decreases above.len(),
{
    reveal_strlit("\n");
    let n = text::until(above, '\n') as int;
    text::lemma_until_bounds(above, '\n');
    let full = above + "\n"@ + rest;
    if n < above.len() {
        let first = above.take(n);
        let next = above.skip(n + 1);
        assert(text::lines(above)[0] == text::chomp(first));
        assert(!key.is_prefix_of(text::trim(text::chomp(first))));
        assert(!has_key_line(text::lines(next), key)) by {
            if has_key_line(text::lines(next), key) {
                let i = choose|i: int|
                    0 <= i < text::lines(next).len() && key.is_prefix_of(
                        text::trim(#[trigger] text::lines(next)[i]),
                    );
                assert(text::lines(above)[i + 1] == text::lines(next)[i]);
            }
        }
        lemma_below_header(next, rest, key);
        assert(text::one_line(first));
        text::lemma_lines_step(first, next + "\n"@ + rest);
        assert(full =~= first + "\n"@ + (next + "\n"@ + rest));
        assert(text::lines(full).drop_first() =~= text::lines(next + "\n"@ + rest));
    } else {
        assert(text::one_line(above));
        text::lemma_lines_step(above, rest);
        lemma_trim_chomp(above);
        if above.len() > 0 {
            assert(text::lines(above)[0] == above);
            assert(!key.is_prefix_of(text::trim(above)));
        } else {
            assert(text::trim(above).len() == 0);
        }
        assert(text::lines(full).drop_first() =~= text::lines(rest));
    }
}

proof fn lemma_command_word(key: Seq<char>, path: Seq<char>, tail: Seq<char>)
    requires
        key.len() > 0,
        !text::white_space(key[0]),
        path.len() > 0,
        text::solid(path),
        tail.len() > 0 ==> text::white_space(tail[0]),
    ensures
        key.is_prefix_of(text::trim(key + path + tail)),
        text::first_word(text::trim(key + path + tail).skip(key.len() as int)) == Some(path),
{
    let line = key + path + tail;
    let n = (key.len() + path.len()) as int;
    assert(line[n - 1] == path[path.len() - 1]);
    text::lemma_trim_keeps(line, n);
    let t = text::trim(line);
    assert(key =~= t.subrange(0, key.len() as int));
    let rest = t.skip(key.len() as int);
    assert(forall|i: int| 0 <= i < path.len() ==> rest[i] == path[i]);
    assert(rest[0] == path[0]);
    text::lemma_trim_start(rest, 0);
    assert(rest.skip(0) =~= rest);
    if path.len() < rest.len() {
        assert(rest[path.len() as int] == tail[0]);
    }
    text::lemma_word_len(rest, path.len() as int);
    assert(rest.take(path.len() as int) =~= path);
}

proof fn lemma_command_first(key: Seq<char>, path: Seq<char>, tail: Seq<char>)
    requires
        key.len() > 0,
        text::one_line(key),
        !text::white_space(key[0]),
        path.len() > 0,
        text::solid(path),
        tail.len() > 0 ==> text::white_space(tail[0]),
    ensures
        linux::command_path(text::lines(key + path + tail), key) == Some(path),
{
    let s = key + path + tail;
    let n = text::until(s, '\n') as int;
    let m = (key.len() + path.len()) as int;
    text::lemma_until_bounds(s, '\n');
    assert(n >= m) by {
        if n < m {
            if n < key.len() {
                assert(s[n] == key[n]);
            } else {
                assert(s[n] == path[n - key.len()]);
                assert(!text::white_space(path[n - key.len()]));
            }
        }
    }
    let line = text::lines(s)[0];
    if n < s.len() {
        let raw = s.take(n);
        assert(line == text::chomp(raw));
        if raw.last() == '\r' {
            assert(n > m) by {
                if n == m {
                    assert(raw.last() == path[path.len() - 1]);
                    assert(!text::white_space(path[path.len() - 1]));
                }
            }
        }
        let rest = tail.take(line.len() - m);
        assert(line =~= key + path + rest);
        lemma_command_word(key, path, rest);
    } else {
        assert(line == s);
        lemma_command_word(key, path, tail);
    }
}

proof fn lemma_regroup(above: Seq<char>, front: Seq<char>, tail: Seq<char>, after: Seq<char>)
    ensures
        above + (front + tail) + after == above + (front + (tail + after)),
{
    assert(above + (front + tail) + after =~= above + (front + (tail + after)));
}

proof fn lemma_xdg_split(
    app_name: Seq<char>,
    app_path: Seq<char>,
    args: Seq<Seq<char>>,
    marker: Seq<char>,
) -> (tail: Seq<char>)
    ensures
        linux::xdg_autostart_data(app_name, app_path, args, marker) == text::joined(
            linux::xdg_autostart_lines(app_name, app_path, args, marker).take(6),
            "\n"@,
        ) + "\n"@ + ("Exec="@ + app_path + tail),
        tail.len() > 0 && text::white_space(tail[0]),
{
    reveal_strlit(" ");
    let lines = linux::xdg_autostart_lines(app_name, app_path, args, marker);
    let h = lines.take(6);
    let space = " "@ + text::joined(args, " "@);
    let command = "Exec="@ + app_path + " "@ + text::joined(args, " "@);
    let p1 = h.push(command);
    let p2 = p1.push("StartupNotify=false"@);
    let p3 = p2.push("Terminal=false"@);
    assert(p3 =~= lines);
    text::lemma_joined_push(h, command, "\n"@);
    text::lemma_joined_push(p1, "StartupNotify=false"@, "\n"@);
    text::lemma_joined_push(p2, "Terminal=false"@, "\n"@);
    let above = text::joined(h, "\n"@) + "\n"@;
    let front = "Exec="@ + app_path;
    assert(command =~= front + space);
    let after = "\n"@ + "StartupNotify=false"@ + "\n"@ + "Terminal=false"@;
    let upto = above + command;
    assert(upto + "\n"@ + "StartupNotify=false"@ + "\n"@ + "Terminal=false"@ =~= upto + after);
    lemma_regroup(above, front, space, after);
    assert((space + after)[0] == ' ');
    space + after
}

proof fn lemma_systemd_split(
    app_name: Seq<char>,
    app_path: Seq<char>,
    args: Seq<Seq<char>>,
    mode: LinuxLaunchMode,
    marker: Seq<char>,
) -> (tail: Seq<char>)
    ensures
        linux::systemd_service_data(app_name, app_path, args, mode, marker) == text::joined(
            linux::systemd_service_lines(app_name, app_path, args, mode, marker).take(7),
            "\n"@,
        ) + "\n"@ + ("ExecStart="@ + app_path + tail),
        tail.len() > 0 && text::white_space(tail[0]),
{
    reveal_strlit(" ");
    reveal_strlit("\n");
    let lines = linux::systemd_service_lines(app_name, app_path, args, mode, marker);
    let h = lines.take(7);
    let space = if args.len() == 0 {
        seq![]
    } else {
        " "@ + text::joined(args, " "@)
    };
    let command = "ExecStart="@ + linux::exec_start(app_path, args);
    let l1 = "Restart=on-failure"@;
    let l2 = "RestartSec=10"@;
    let l3 = ""@;
    let l4 = "[Install]"@;
    let l5 = "WantedBy="@ + linux::wanted_by(mode);
    let p1 = h.push(command);
    let p2 = p1.push(l1);
    let p3 = p2.push(l2);
    let p4 = p3.push(l3);
    let p5 = p4.push(l4);
    let p6 = p5.push(l5);
    assert(p6 =~= lines);
    text::lemma_joined_push(h, command, "\n"@);
    text::lemma_joined_push(p1, l1, "\n"@);
    text::lemma_joined_push(p2, l2, "\n"@);
    text::lemma_joined_push(p3, l3, "\n"@);
    text::lemma_joined_push(p4, l4, "\n"@);
    text::lemma_joined_push(p5, l5, "\n"@);
    let above = text::joined(h, "\n"@) + "\n"@;
    let front = "ExecStart="@ + app_path;
    assert(command =~= front + space);
    let upto = above + command;
    let after = lemma_append_lines(upto, l1, l2, l3, l4, l5);
    lemma_regroup(above, front, space, after);
    assert((space + after)[0] == ' ' || (space + after)[0] == '\n');
    space + after
}

proof fn lemma_append_lines(
    upto: Seq<char>,
    l1: Seq<char>,
    l2: Seq<char>,
    l3: Seq<char>,
    l4: Seq<char>,
    l5: Seq<char>,
) -> (after: Seq<char>)
    ensures
        after.len() > 0 && after[0] == '\n',
        upto + "\n"@ + l1 + "\n"@ + l2 + "\n"@ + l3 + "\n"@ + l4 + "\n"@ + l5 == upto + after,
{
    reveal_strlit("\n");
    let nl = "\n"@;
    let a1 = nl + l1;
    let a2 = a1 + nl + l2;
    let a3 = a2 + nl + l3;
    let a4 = a3 + nl + l4;
    let a5 = a4 + nl + l5;
    assert(upto + nl + l1 =~= upto + a1);
    assert(upto + a1 + nl + l2 =~= upto + a2);
    assert(upto + a2 + nl + l3 =~= upto + a3);
    assert(upto + a3 + nl + l4 =~= upto + a4);
    assert(upto + a4 + nl + l5 =~= upto + a5);
    a5
}

/// The path that is read back from a registration is the one that it was written with: if the
/// path is a single word, and if what stands above the command line has no command line in it,
/// which only a name of several lines can bring about.
pub proof fn law_registered_path_is_app_path(al: &AutoLaunch)
    requires
        al.app_path@.len() > 0,
        text::solid(al.app_path@),
        !has_key_line(text::lines(header(al)), linux::command_key(al.launch_mode)),
    ensures
        linux::command_path(
            text::lines(al.registration_text()),
            linux::command_key(al.launch_mode),
        ) == Some(al.app_path@),
{
    reveal_strlit("Exec=");
    reveal_strlit("ExecStart=");
    let key = linux::command_key(al.launch_mode);
    let path = al.app_path@;
    let args = text::texts(al.args@);
    let tail = if al.launch_mode == LinuxLaunchMode::XdgAutostart {
        lemma_xdg_split(al.app_name@, path, args, al.marker())
    } else {
        lemma_systemd_split(al.app_name@, path, args, al.launch_mode, al.marker())
    };
    lemma_below_header(header(al), key + path + tail, key);
    lemma_command_first(key, path, tail);
}

/// Once its registration stands, the path that is looked up is the application's.
pub proof fn law_written_registration_reads_back(
    al: &AutoLaunch,
    reg: Registration,
    home: Option<Seq<u8>>,
    content: String,
    step: PathStep,
)
    requires
        al.app_path@.len() > 0,
        text::solid(al.app_path@),
        !has_key_line(text::lines(header(al)), linux::command_key(al.launch_mode)),
        al.registers(reg, home),
        content@ == reg.data@,
        al.after_path_read(Ok(content), step),
    ensures
        step matches PathStep::Finished(Ok(Some(path))) && path@ == al.app_path@,
{
    law_registered_path_is_app_path(al);
}

/// Whether a line is blank, or starts with a character that is neither white space nor `c`.
spec fn starts_otherwise(line: Seq<char>, c: char) -> bool {
    line.len() > 0 ==> !text::white_space(line[0]) && line[0] != c
}

proof fn lemma_starts_otherwise(line: Seq<char>, key: Seq<char>)
    requires
        key.len() > 0,
        starts_otherwise(line, key[0]),
    ensures
        starts_otherwise(text::chomp(line), key[0]),
        !key.is_prefix_of(text::trim(line)),
        !key.is_prefix_of(text::trim_start(line)),
{
    if line.len() > 0 {
        text::lemma_trim_keeps(line, 1);
        assert(text::trim(line)[0] == line[0]);
        if key.is_prefix_of(text::trim(line)) {
            assert(key[0] == text::trim(line)[0]);
        }
        if key.is_prefix_of(line) {
            assert(key[0] == line[0]);
        }
    }
}

proof fn lemma_one_line_add(a: Seq<char>, b: Seq<char>)
    requires
        text::one_line(a),
        text::one_line(b),
    ensures
        text::one_line(a + b),
{
    assert forall|i: int| 0 <= i < (a + b).len() implies #[trigger] (a + b)[i] != '\n' by {
        if i < a.len() {
            assert((a + b)[i] == a[i]);
        } else {
            assert((a + b)[i] == b[i - a.len()]);
        }
    }
}

proof fn lemma_one_line_joined(parts: Seq<Seq<char>>, sep: Seq<char>)
    requires
        text::one_line(sep),
        forall|i: int| 0 <= i < parts.len() ==> text::one_line(#[trigger] parts[i]),
    ensures
        text::one_line(text::joined(parts, sep)),
    decreases parts.len(),
{
    if parts.len() == 1 {
        assert(text::one_line(parts[0]));
    } else if parts.len() > 1 {
        let front = parts.drop_last();
        assert forall|i: int| 0 <= i < front.len() implies text::one_line(#[trigger] front[i]) by {
            assert(text::one_line(parts[i]));
        }
        lemma_one_line_joined(front, sep);
        assert(text::one_line(parts[parts.len() - 1]));
        lemma_one_line_add(text::joined(front, sep), sep);
        lemma_one_line_add(text::joined(front, sep) + sep, parts.last());
    }
}

proof fn lemma_no_key_line(parts: Seq<Seq<char>>, key: Seq<char>)
    requires
        parts.len() > 0,
        parts.last().len() > 0,
        key.len() > 0,
        forall|i: int| 0 <= i < parts.len() ==> text::one_line(#[trigger] parts[i]),
        forall|i: int| 0 <= i < parts.len() ==> starts_otherwise(#[trigger] parts[i], key[0]),
    ensures
        !has_key_line(text::lines(text::joined(parts, "\n"@)), key),
{
    text::lemma_lines_of_joined(parts);
    let ls = text::lines(text::joined(parts, "\n"@));
    assert forall|i: int| 0 <= i < ls.len() implies !key.is_prefix_of(
        text::trim(#[trigger] ls[i]),
    ) by {
        lemma_starts_otherwise(parts[i], key);
        lemma_starts_otherwise(text::chomp(parts[i]), key);
    }
}

proof fn lemma_fixed_lines()
    ensures
        text::one_line("# "@),
        text::one_line("Managed by "@),
        text::one_line(". Manual edits will be overwritten."@),
        text::one_line("[Desktop Entry]"@),
        text::one_line("Type=Application"@),
        text::one_line("Version=1.0"@),
        text::one_line("Name="@),
        text::one_line("Comment="@),
        text::one_line(" startup script"@),
        text::one_line("Exec="@),
        text::one_line(" "@),
        text::one_line("StartupNotify=false"@),
        text::one_line("Terminal=false"@),
        text::one_line("[Unit]"@),
        text::one_line("Description="@),
        text::one_line("After="@),
        text::one_line("multi-user.target"@),
        text::one_line("default.target"@),
        text::one_line(""@),
        text::one_line("[Service]"@),
        text::one_line("Type=simple"@),
        text::one_line("ExecStart="@),
        text::one_line("Restart=on-failure"@),
        text::one_line("RestartSec=10"@),
        text::one_line("[Install]"@),
        text::one_line("WantedBy="@),
{
    reveal_strlit("# ");
    reveal_strlit("Managed by ");
    reveal_strlit(". Manual edits will be overwritten.");
    reveal_strlit("[Desktop Entry]");
    reveal_strlit("Type=Application");
    reveal_strlit("Version=1.0");
    reveal_strlit("Name=");
    reveal_strlit("Comment=");
    reveal_strlit(" startup script");
    reveal_strlit("Exec=");
    reveal_strlit(" ");
    reveal_strlit("StartupNotify=false");
    reveal_strlit("Terminal=false");
    reveal_strlit("[Unit]");
    reveal_strlit("Description=");
    reveal_strlit("After=");
    reveal_strlit("multi-user.target");
    reveal_strlit("default.target");
    reveal_strlit("");
    reveal_strlit("[Service]");
    reveal_strlit("Type=simple");
    reveal_strlit("ExecStart=");
    reveal_strlit("Restart=on-failure");
    reveal_strlit("RestartSec=10");
    reveal_strlit("[Install]");
    reveal_strlit("WantedBy=");
}

proof fn lemma_header_lines_single(al: &AutoLaunch)
    requires
        text::one_line(al.app_name@),
    ensures
        forall|i: int|
            0 <= i < header_lines(al).len() ==> text::one_line(#[trigger] header_lines(al)[i]),
{
    lemma_fixed_lines();
    let name = al.app_name@;
    lemma_one_line_add("Managed by "@, name);
    lemma_one_line_add("# "@, al.marker());
    lemma_one_line_add("# "@ + al.marker(), ". Manual edits will be overwritten."@);
    lemma_one_line_add("Name="@, name);
    lemma_one_line_add("Comment="@, name);
    lemma_one_line_add("Comment="@ + name, " startup script"@);
    lemma_one_line_add("Description="@, name);
    lemma_one_line_add("After="@, linux::wanted_by(al.launch_mode));
}

/// A name that is a single line brings no command line into what stands above the command line.
pub proof fn law_single_line_name_adds_no_command(al: &AutoLaunch)
    requires
        text::one_line(al.app_name@),
    ensures
        !has_key_line(text::lines(header(al)), linux::command_key(al.launch_mode)),
{
    lemma_header_lines_single(al);
    reveal_strlit("Exec=");
    reveal_strlit("ExecStart=");
    reveal_strlit("# ");
    if al.launch_mode == LinuxLaunchMode::XdgAutostart {
        reveal_strlit("[Desktop Entry]");
        reveal_strlit("Type=Application");
        reveal_strlit("Version=1.0");
        reveal_strlit("Name=");
        reveal_strlit("Comment=");
        lemma_no_key_line(header_lines(al), "Exec="@);
    } else {
        reveal_strlit("[Unit]");
        reveal_strlit("Description=");
        reveal_strlit("After=");
        reveal_strlit("");
        reveal_strlit("[Service]");
        reveal_strlit("Type=simple");
        lemma_no_key_line(header_lines(al), "ExecStart="@);
    }
}

proof fn lemma_prefix_cancel(front: Seq<char>, a: Seq<char>, b: Seq<char>)
    ensures
        (front + a).is_prefix_of(front + b) == a.is_prefix_of(b),
{
    let n = front.len() as int;
    if (front + a).is_prefix_of(front + b) {
        assert forall|i: int| 0 <= i < a.len() implies a[i] == b[i] by {
            assert((front + a)[n + i] == (front + b)[n + i]);
        }
        assert(a =~= b.subrange(0, a.len() as int));
    }
    if a.is_prefix_of(b) {
        assert forall|i: int| 0 <= i < a.len() implies a[i] == b[i] by {
            assert(a[i] == b.subrange(0, a.len() as int)[i]);
        }
        assert((front + a) =~= (front + b).subrange(0, (front + a).len() as int));
    }
}

proof fn lemma_managed_by_first(parts: Seq<Seq<char>>, marker: Seq<char>)
    requires
        parts.len() > 1,
        parts.last().len() > 0,
        forall|i: int| 0 <= i < parts.len() ==> text::one_line(#[trigger] parts[i]),
        forall|i: int| 1 <= i < parts.len() ==> starts_otherwise(#[trigger] parts[i], '#'),
        parts[0].len() > 0,
        parts[0][0] == '#',
        parts[0].last() != '\r',
    ensures
        linux::managed(text::joined(parts, "\n"@), marker) == ("# "@ + marker).is_prefix_of(
            parts[0],
        ),
{
    reveal_strlit("# ");
    text::lemma_lines_of_joined(parts);
    let ls = text::lines(text::joined(parts, "\n"@));
    assert(ls[0] == parts[0]);
    text::lemma_trim_start(ls[0], 0);
    assert(ls[0].skip(0) =~= ls[0]);
    assert(linux::managed_line(ls[0], marker) == ("# "@ + marker).is_prefix_of(parts[0]));
    assert forall|i: int| 1 <= i < ls.len() implies !linux::managed_line(
        #[trigger] ls[i],
        marker,
    ) by {
        let key = "# "@ + marker;
        lemma_starts_otherwise(parts[i], key);
        lemma_starts_otherwise(text::chomp(parts[i]), key);
    }
}

/// Whose registration one application takes for its own, when it finds another's in its place,
/// written from single lines: one for a name that its own name is the beginning of.
pub proof fn law_other_applications_registration(al: &AutoLaunch, other: &AutoLaunch)
    requires
        text::one_line(other.app_name@),
        text::one_line(other.app_path@),
        forall|i: int| 0 <= i < other.args@.len() ==> text::one_line((#[trigger] other.args@[i])@),
    ensures
        linux::managed(other.registration_text(), al.marker()) == al.app_name@.is_prefix_of(
            other.app_name@ + ". Manual edits will be overwritten."@,
        ),
{
    lemma_header_lines_single(other);
    lemma_fixed_lines();
    let name = other.app_name@;
    let path = other.app_path@;
    let args = text::texts(other.args@);
    let target = linux::wanted_by(other.launch_mode);
    assert forall|i: int| 0 <= i < args.len() implies text::one_line(#[trigger] args[i]) by {
        assert(text::one_line(other.args@[i]@));
    }
    lemma_one_line_joined(args, " "@);
    lemma_one_line_add(path, " "@);
    lemma_one_line_add(path + " "@, text::joined(args, " "@));
    lemma_one_line_add("Exec="@, path);
    lemma_one_line_add("Exec="@ + path, " "@);
    lemma_one_line_add("Exec="@ + path + " "@, text::joined(args, " "@));
    lemma_one_line_add("ExecStart="@, linux::exec_start(path, args));
    lemma_one_line_add("WantedBy="@, target);
    let note = ". Manual edits will be overwritten."@;
    let first = linux::marker_line(other.marker());
    assert(first.len() > 0 && first[0] == '#' && first.last() == '.') by {
        reveal_strlit("# ");
        reveal_strlit(". Manual edits will be overwritten.");
    }
    let front = "# "@ + "Managed by "@;
    assert("# "@ + al.marker() =~= front + al.app_name@);
    assert(first =~= front + (name + note));
    lemma_prefix_cancel(front, al.app_name@, name + note);
    let parts = other.registration_lines();
    assert forall|i: int| 0 <= i < parts.len() implies text::one_line(#[trigger] parts[i]) by {
        if i < header_lines(other).len() {
            assert(parts[i] == header_lines(other)[i]);
        }
    }
    if other.launch_mode == LinuxLaunchMode::XdgAutostart {
        reveal_strlit("[Desktop Entry]");
        reveal_strlit("Type=Application");
        reveal_strlit("Version=1.0");
        reveal_strlit("Name=");
        reveal_strlit("Comment=");
        reveal_strlit("Exec=");
        reveal_strlit("StartupNotify=false");
        reveal_strlit("Terminal=false");
    } else {
        reveal_strlit("[Unit]");
        reveal_strlit("Description=");
        reveal_strlit("After=");
        reveal_strlit("");
        reveal_strlit("[Service]");
        reveal_strlit("Type=simple");
        reveal_strlit("ExecStart=");
        reveal_strlit("Restart=on-failure");
        reveal_strlit("RestartSec=10");
        reveal_strlit("[Install]");
        reveal_strlit("WantedBy=");
    }
    lemma_managed_by_first(parts, al.marker());
}

/// What the host answers while a registration is being made.
pub struct EnableAnswers {
    pub file_exists: bool,
    pub file_read: Result<String, IoError>,
    pub dir_exists: bool,
    pub dir_created: Result<(), IoError>,
    pub file_written: Result<(), IoError>,
    pub daemon_reloaded: Result<CommandOutput, IoError>,
    pub unit_enabled: Result<CommandOutput, IoError>,
}

/// How far a step is from the end, at most.
pub open spec fn enable_distance(step: EnableStep) -> nat {
    match step {
        EnableStep::CheckFile(_) => 7,
        EnableStep::ReadFile(_) => 6,
        EnableStep::CheckDir(_) => 5,
        EnableStep::CreateDir(_) => 4,
        EnableStep::WriteFile(_) => 3,
        EnableStep::ReloadDaemon(_) => 2,
        EnableStep::EnableUnit(_) => 1,
        EnableStep::Finished(_) => 0,
    }
}

/// The step at which the registration is written, or at which the operation ends without that.
pub open spec fn enable_reaches(al: &AutoLaunch, step: EnableStep, answers: EnableAnswers) -> EnableStep
    decreases enable_distance(step),
{
    match step {
        EnableStep::CheckFile(reg) => enable_reaches(
            al,
            AutoLaunch::after_file_checked(reg, answers.file_exists),
            answers,
        ),
        EnableStep::ReadFile(reg) => enable_reaches(
            al,
            al.after_file_read(reg, answers.file_read),
            answers,
        ),
        EnableStep::CheckDir(reg) => enable_reaches(
            al,
            AutoLaunch::after_dir_checked(reg, answers.dir_exists),
            answers,
        ),
        EnableStep::CreateDir(reg) => enable_reaches(
            al,
            AutoLaunch::after_dir_created(reg, answers.dir_created),
            answers,
        ),
        _ => step,
    }
}

/// Whether the answers tell of a registration that is not this library's.
pub open spec fn foreign(al: &AutoLaunch, answers: EnableAnswers) -> bool {
    answers.file_exists && (answers.file_read matches Ok(content) && !linux::managed(
        content@,
        al.marker(),
    ))
}

/// A registration that is not this library's is left alone: without force, the operation ends
/// with an error that names its file.
pub proof fn law_enable_leaves_foreign_registration(
    al: &AutoLaunch,
    home: Option<Seq<u8>>,
    step: EnableStep,
    answers: EnableAnswers,
)
    requires
        al.enable_starts(false, home, step),
        al.registration_file(home) is Some,
        foreign(al, answers),
    ensures
        enable_reaches(al, step, answers) matches EnableStep::Finished(
            Err(LaunchError::RegistrationNotOwned(file)),
        ) && al.registration_file(home) == Some(file@),
{
    reveal_with_fuel(enable_reaches, 3);
}

/// The refusal comes for that reason alone.
pub proof fn law_refusal_means_foreign(
    al: &AutoLaunch,
    force: bool,
    home: Option<Seq<u8>>,
    step: EnableStep,
    answers: EnableAnswers,
)
    requires
        al.enable_starts(force, home, step),
        enable_reaches(al, step, answers) matches EnableStep::Finished(
            Err(LaunchError::RegistrationNotOwned(_)),
        ),
    ensures
        !force,
        foreign(al, answers),
{
    reveal_with_fuel(enable_reaches, 5);
}

/// What is written is this application's registration, at its place; and without force only where
/// nothing stood, or where this library's registration did.
pub proof fn law_enable_writes_own_registration(
    al: &AutoLaunch,
    force: bool,
    home: Option<Seq<u8>>,
    step: EnableStep,
    answers: EnableAnswers,
)
    requires
        al.enable_starts(force, home, step),
        enable_reaches(al, step, answers) is WriteFile,
    ensures
        al.registers(enable_reaches(al, step, answers)->WriteFile_0, home),
        !force ==> !answers.file_exists || (answers.file_read matches Ok(content)
            && linux::managed(content@, al.marker())),
{
    reveal_with_fuel(enable_reaches, 5);
}

/// With force, what stands in the registration's place is neither asked for nor of any account.
pub proof fn law_enable_force_ignores_registration(
    al: &AutoLaunch,
    home: Option<Seq<u8>>,
    step: EnableStep,
    answers: EnableAnswers,
    others: EnableAnswers,
)
    requires
        al.enable_starts(true, home, step),
        answers.dir_exists == others.dir_exists,
        answers.dir_created == others.dir_created,
    ensures
        step !is CheckFile && step !is ReadFile,
        enable_reaches(al, step, answers) == enable_reaches(al, step, others),
{
    reveal_with_fuel(enable_reaches, 3);
}

/// Whether the directory is there or could be made.
pub open spec fn directory_stands(answers: EnableAnswers) -> bool {
    answers.dir_exists || answers.dir_created is Ok || (answers.dir_created matches Err(e) && e.kind
        == IoErrorKind::AlreadyExists)
}

/// The registration is written whenever nothing speaks against it: the directory is there or can
/// be made, and what stands in its place, if that counts, is this library's.
pub proof fn law_enable_reaches_writing(
    al: &AutoLaunch,
    force: bool,
    home: Option<Seq<u8>>,
    step: EnableStep,
    answers: EnableAnswers,
)
    requires
        al.enable_starts(force, home, step),
        al.registration_file(home) is Some,
        force || !answers.file_exists || (answers.file_read matches Ok(content) && linux::managed(
            content@,
            al.marker(),
        )),
        directory_stands(answers),
    ensures
        enable_reaches(al, step, answers) is WriteFile,
{
    reveal_with_fuel(enable_reaches, 5);
}

/// Each answer brings the operation nearer to its end, at which it stops.
pub proof fn law_enable_ends(
    al: &AutoLaunch,
    reg: Registration,
    exists: bool,
    text_read: Result<String, IoError>,
    done: Result<(), IoError>,
    output: Result<CommandOutput, IoError>,
    args: Vec<String>,
    step: EnableStep,
)
    ensures
        enable_distance(AutoLaunch::after_file_checked(reg, exists)) < enable_distance(
            EnableStep::CheckFile(reg),
        ),
        enable_distance(al.after_file_read(reg, text_read)) < enable_distance(
            EnableStep::ReadFile(reg),
        ),
        enable_distance(AutoLaunch::after_dir_checked(reg, exists)) < enable_distance(
            EnableStep::CheckDir(reg),
        ),
        enable_distance(AutoLaunch::after_dir_created(reg, done)) < enable_distance(
            EnableStep::CreateDir(reg),
        ),
        al.after_file_written(done, step) ==> enable_distance(step) < enable_distance(
            EnableStep::WriteFile(reg),
        ),
        al.after_daemon_reloaded(step) ==> enable_distance(step) < enable_distance(
            EnableStep::ReloadDaemon(args),
        ),
        AutoLaunch::after_unit_enabled(output, step) ==> enable_distance(step) < enable_distance(
            EnableStep::EnableUnit(args),
        ),
        enable_distance(step) == 0 <==> step is Finished,
{
}

/// Whether registering goes on with `next` behind `step`, by what the host answers.
pub open spec fn enable_follows(
    al: &AutoLaunch,
    answers: EnableAnswers,
    step: EnableStep,
    next: EnableStep,
) -> bool {
    match step {
        EnableStep::CheckFile(reg) => next == AutoLaunch::after_file_checked(
            reg,
            answers.file_exists,
        ),
        EnableStep::ReadFile(reg) => next == al.after_file_read(reg, answers.file_read),
        EnableStep::CheckDir(reg) => next == AutoLaunch::after_dir_checked(reg, answers.dir_exists),
        EnableStep::CreateDir(reg) => next == AutoLaunch::after_dir_created(
            reg,
            answers.dir_created,
        ),
        EnableStep::WriteFile(_) => al.after_file_written(answers.file_written, next),
        EnableStep::ReloadDaemon(_) => al.after_daemon_reloaded(next),
        EnableStep::EnableUnit(_) => AutoLaunch::after_unit_enabled(answers.unit_enabled, next),
        EnableStep::Finished(_) => false,
    }
}

/// Whether the step at `i` of a run is followed as the host answers.
pub open spec fn enable_linked(
    al: &AutoLaunch,
    answers: EnableAnswers,
    run: Seq<EnableStep>,
    i: int,
) -> bool {
    enable_follows(al, answers, run[i], run[i + 1])
}

/// Whether `run` holds the steps of registering from the first to the last.
pub open spec fn enable_run(
    al: &AutoLaunch,
    force: bool,
    home: Option<Seq<u8>>,
    answers: EnableAnswers,
    run: Seq<EnableStep>,
) -> bool {
    &&& run.len() > 0
    &&& al.enable_starts(force, home, run[0])
    &&& forall|i: int| 0 <= i < run.len() - 1 ==> #[trigger] enable_linked(al, answers, run, i)
    &&& run.last() is Finished
}

/// Whether a step writes this application's registration to its place.
pub open spec fn writes_own(al: &AutoLaunch, home: Option<Seq<u8>>, step: EnableStep) -> bool {
    step matches EnableStep::WriteFile(reg) && al.registers(reg, home)
}

/// Whether a step is about the registration file before it is written, or about its writing, and
/// the file is this application's.
pub open spec fn prepares_own(al: &AutoLaunch, home: Option<Seq<u8>>, step: EnableStep) -> bool {
    match step {
        EnableStep::CheckFile(reg)
        | EnableStep::ReadFile(reg)
        | EnableStep::CheckDir(reg)
        | EnableStep::CreateDir(reg)
        | EnableStep::WriteFile(reg) => al.registers(reg, home),
        _ => false,
    }
}

proof fn lemma_enable_writes(
    al: &AutoLaunch,
    home: Option<Seq<u8>>,
    answers: EnableAnswers,
    run: Seq<EnableStep>,
    i: int,
)
    requires
        0 <= i < run.len(),
        forall|j: int| 0 <= j < run.len() - 1 ==> #[trigger] enable_linked(al, answers, run, j),
        run.last() is Finished,
        prepares_own(al, home, run[i]),
    ensures
        run.last()->Finished_0 is Ok ==> exists|j: int|
            0 <= j < run.len() && #[trigger] writes_own(al, home, run[j]),
    decreases run.len() - i,
{
    assert(enable_linked(al, answers, run, i));
    if run[i] is WriteFile {
        assert(writes_own(al, home, run[i]));
    } else if prepares_own(al, home, run[i + 1]) {
        lemma_enable_writes(al, home, answers, run, i + 1);
    } else if i + 1 < run.len() - 1 {
        assert(enable_linked(al, answers, run, i + 1));
    }
}

/// Whether registering comes to `r`: to the first failure, or to success. What comes of the reload
/// is no failure.
pub open spec fn enable_result(
    al: &AutoLaunch,
    force: bool,
    home: Option<Seq<u8>>,
    answers: EnableAnswers,
    r: Result<(), LaunchError>,
) -> bool {
    if al.registration_file(home) is None {
        r matches Err(e) && error::home_not_found(e)
    } else if !force && answers.file_exists && answers.file_read is Err {
        r == Err::<(), LaunchError>(LaunchError::Io(answers.file_read->Err_0))
    } else if !force && foreign(al, answers) {
        r matches Err(LaunchError::RegistrationNotOwned(file)) && al.registration_file(home)
            == Some(file@)
    } else if !directory_stands(answers) {
        r == Err::<(), LaunchError>(LaunchError::Io(answers.dir_created->Err_0))
    } else if answers.file_written is Err {
        r == Err::<(), LaunchError>(LaunchError::Io(answers.file_written->Err_0))
    } else if al.launch_mode == LinuxLaunchMode::XdgAutostart {
        r is Ok
    } else {
        match answers.unit_enabled {
            Ok(output) => linux::enable_verdict(
                output.success,
                host::utf8_lossy(output.stderr@),
                r,
            ),
            Err(e) => r == Err::<(), LaunchError>(LaunchError::Io(e)),
        }
    }
}

/// How registering ends: with the first failure, and otherwise with success. It succeeds exactly
/// if nothing foreign stood in the registration's place, or did not count; if the directory was
/// there or could be made; if the registration could be written; and, for a systemd unit, if
/// `systemctl enable` succeeded. What came of the reload does not count. Success means that the
/// registration was written to its place.
pub proof fn law_enable_result(
    al: &AutoLaunch,
    force: bool,
    home: Option<Seq<u8>>,
    answers: EnableAnswers,
    run: Seq<EnableStep>,
)
    requires
        enable_run(al, force, home, answers, run),
    ensures
        run.len() <= 8,
        enable_result(al, force, home, answers, run.last()->Finished_0),
        run.last()->Finished_0 is Ok <==> {
            &&& al.registration_file(home) is Some
            &&& force || !answers.file_exists || (answers.file_read matches Ok(content)
                && linux::managed(content@, al.marker()))
            &&& directory_stands(answers)
            &&& answers.file_written is Ok
            &&& al.launch_mode == LinuxLaunchMode::XdgAutostart || (answers.unit_enabled matches Ok(
                output,
            ) && output.success)
        },
        run.last()->Finished_0 is Ok ==> exists|i: int|
            0 <= i < run.len() && #[trigger] writes_own(al, home, run[i]),
{
    if prepares_own(al, home, run[0]) {
        lemma_enable_writes(al, home, answers, run, 0);
    }
    assert(0 < run.len() - 1 ==> enable_linked(al, answers, run, 0));
    assert(1 < run.len() - 1 ==> enable_linked(al, answers, run, 1));
    assert(2 < run.len() - 1 ==> enable_linked(al, answers, run, 2));
    assert(3 < run.len() - 1 ==> enable_linked(al, answers, run, 3));
    assert(4 < run.len() - 1 ==> enable_linked(al, answers, run, 4));
    assert(5 < run.len() - 1 ==> enable_linked(al, answers, run, 5));
    assert(6 < run.len() - 1 ==> enable_linked(al, answers, run, 6));
    assert(7 < run.len() - 1 ==> enable_linked(al, answers, run, 7));
}

/// What the host answers while a registration is being removed.
pub struct DisableAnswers {
    pub unit_disabled: Result<CommandOutput, IoError>,
    pub file_exists: bool,
    pub file_removed: Result<(), IoError>,
    pub daemon_reloaded: Result<CommandOutput, IoError>,
}

/// Whether removing goes on with `next` behind `step`, by what the host answers.
pub open spec fn disable_follows(
    al: &AutoLaunch,
    home: Option<Seq<u8>>,
    answers: DisableAnswers,
    step: DisableStep,
    next: DisableStep,
) -> bool {
    match step {
        DisableStep::DisableUnit(_) => al.after_unit_disabled(home, answers.unit_disabled, next),
        DisableStep::CheckFile(file) => al.after_removal_checked(file, answers.file_exists, next),
        DisableStep::RemoveFile(_) => al.after_file_removed(answers.file_removed, next),
        DisableStep::ReloadDaemon(_) => next == DisableStep::Finished(Ok(())),
        DisableStep::Finished(_) => false,
    }
}

/// Whether the step at `i` of a run is followed as the host answers.
pub open spec fn disable_linked(
    al: &AutoLaunch,
    home: Option<Seq<u8>>,
    answers: DisableAnswers,
    run: Seq<DisableStep>,
    i: int,
) -> bool {
    disable_follows(al, home, answers, run[i], run[i + 1])
}

/// Whether `run` holds the steps of removing from the first to the last.
pub open spec fn disable_run(
    al: &AutoLaunch,
    home: Option<Seq<u8>>,
    answers: DisableAnswers,
    run: Seq<DisableStep>,
) -> bool {
    &&& run.len() > 0
    &&& al.disable_starts(home, run[0])
    &&& forall|i: int|
        0 <= i < run.len() - 1 ==> #[trigger] disable_linked(al, home, answers, run, i)
    &&& run.last() is Finished
}

/// Whether there is no unit, or it could be disabled, or there was nothing to disable.
pub open spec fn unit_is_off(al: &AutoLaunch, answers: DisableAnswers) -> bool {
    al.launch_mode == LinuxLaunchMode::XdgAutostart || (answers.unit_disabled matches Ok(output)
        && (output.success || linux::nothing_to_disable(host::utf8_lossy(output.stderr@))))
}

/// Whether removing comes to `r`: to the first failure, or to success. What comes of the reload is
/// no failure.
pub open spec fn disable_result(
    al: &AutoLaunch,
    home: Option<Seq<u8>>,
    answers: DisableAnswers,
    r: Result<(), LaunchError>,
) -> bool {
    if !unit_is_off(al, answers) {
        match answers.unit_disabled {
            Ok(output) => linux::disable_verdict(false, host::utf8_lossy(output.stderr@), r),
            Err(e) => r == Err::<(), LaunchError>(LaunchError::Io(e)),
        }
    } else if al.registration_file(home) is None {
        r matches Err(e) && error::home_not_found(e)
    } else if answers.file_exists && answers.file_removed is Err {
        r == Err::<(), LaunchError>(LaunchError::Io(answers.file_removed->Err_0))
    } else {
        r is Ok
    }
}

/// How removing ends: with the first failure, and otherwise with success. It succeeds exactly if
/// the unit, where there is one, is off, and the registration file was missing or could be
/// removed. What came of the reload does not count.
pub proof fn law_disable_result(
    al: &AutoLaunch,
    home: Option<Seq<u8>>,
    answers: DisableAnswers,
    run: Seq<DisableStep>,
)
    requires
        disable_run(al, home, answers, run),
    ensures
        run.len() <= 5,
        disable_result(al, home, answers, run.last()->Finished_0),
        run.last()->Finished_0 is Ok <==> {
            &&& unit_is_off(al, answers)
            &&& al.registration_file(home) is Some
            &&& !answers.file_exists || answers.file_removed is Ok
        },
{
    assert(0 < run.len() - 1 ==> disable_linked(al, home, answers, run, 0));
    assert(1 < run.len() - 1 ==> disable_linked(al, home, answers, run, 1));
    assert(2 < run.len() - 1 ==> disable_linked(al, home, answers, run, 2));
    assert(3 < run.len() - 1 ==> disable_linked(al, home, answers, run, 3));
    assert(4 < run.len() - 1 ==> disable_linked(al, home, answers, run, 4));
}

/// The one file that removing touches is the registration file. It is removed only if it was
/// there and the unit, where there is one, is off: a unit that could not be disabled keeps its
/// file, which is not even asked for.
pub proof fn law_disable_touches_own_file(
    al: &AutoLaunch,
    home: Option<Seq<u8>>,
    answers: DisableAnswers,
    run: Seq<DisableStep>,
    i: int,
)
    requires
        disable_run(al, home, answers, run),
        0 <= i < run.len(),
    ensures
        run[i] matches DisableStep::CheckFile(file) ==> unit_is_off(al, answers)
            && al.registration_file(home) == Some(file@),
        run[i] matches DisableStep::RemoveFile(file) ==> unit_is_off(al, answers)
            && answers.file_exists && al.registration_file(home) == Some(file@),
    decreases i,
{
    if i > 0 {
        law_disable_touches_own_file(al, home, answers, run, i - 1);
        assert(disable_linked(al, home, answers, run, i - 1));
    }
}

/// The daemon is reloaded for a unit alone, once, and last: exactly if removing succeeds.
pub proof fn law_disable_reloads_last(
    al: &AutoLaunch,
    home: Option<Seq<u8>>,
    answers: DisableAnswers,
    run: Seq<DisableStep>,
    i: int,
)
    requires
        disable_run(al, home, answers, run),
        0 <= i < run.len(),
    ensures
        run[i] is ReloadDaemon <==> {
            &&& i == run.len() - 2
            &&& al.launch_mode != LinuxLaunchMode::XdgAutostart
            &&& run.last()->Finished_0 is Ok
        },
        run[i] matches DisableStep::ReloadDaemon(args) ==> text::texts(args@)
            == linux::systemctl_args(al.launch_mode, seq!["daemon-reload"@]),
{
    if i > 0 {
        assert(disable_linked(al, home, answers, run, i - 1));
    }
    if i < run.len() - 1 {
        assert(disable_linked(al, home, answers, run, i));
    }
    if i < run.len() - 2 {
        assert(disable_linked(al, home, answers, run, i + 1));
    }
}

/// Registering, removing and asking are all about one file.
pub proof fn law_operations_share_the_file(
    al: &AutoLaunch,
    home: Option<Seq<u8>>,
    reg: Registration,
    removed: Vec<u8>,
    asked: Vec<u8>,
    looked_up: Vec<u8>,
)
    requires
        al.registers(reg, home),
        al.removal_starts(home, DisableStep::CheckFile(removed)),
        al.owned_starts(home, OwnedStep::CheckFile(asked)),
        al.path_starts(home, PathStep::CheckFile(looked_up)),
    ensures
        removed@ == reg.file@,
        asked@ == reg.file@,
        looked_up@ == reg.file@,
        al.launch_mode == LinuxLaunchMode::XdgAutostart ==> al.enabled_starts(
            home,
            EnabledStep::CheckFile(removed),
        ),
{
}

} // verus!
