//! What the `networksetup` program reports.

use vstd::prelude::*;
use vstd::string::*;

use crate::errors::{PlatformError, PlatformErrorView};
use crate::number::{
    decimal_text, is_digit, law_decimal_round_trip, lemma_decimal_text, number_error_text,
    parse_u32, parsed_u32,
};
use crate::system_proxy::state::{unset_proxy, MacosProxyState, MacosProxyStateView};
use crate::text::{
    eq_ignore_ascii_case, first_index, is_trimmed, law_trimmed, lemma_first_index,
    lemma_first_line, lemma_last_line_end, lemma_one_more_line, lemma_trimmed_without_return, lines,
    lines_of, same_ignoring_ascii_case, same_text, split_at_first, split_once, starts_with, trim,
    trim_start, trimmed, without_return,
};

verus! {

/// A line that names a service in use: it is not empty, and no asterisk marks it as disabled.
pub open spec fn names_service(line: Seq<char>) -> bool {
    line.len() > 0 && line[0] != '*'
}

/// The services of a list of lines.
pub open spec fn services_of_lines(lines: Seq<Seq<char>>) -> Seq<Seq<char>> {
    lines.map_values(|line: Seq<char>| trimmed(line)).filter(|line: Seq<char>| names_service(line))
}

/// The network services in use that a listing names. Its first line is a heading.
pub open spec fn listed_services(output: Seq<char>) -> Seq<Seq<char>> {
    let lines = lines_of(output);
    if lines.len() == 0 {
        Seq::empty()
    } else {
        services_of_lines(lines.skip(1))
    }
}

proof fn lemma_services_push(lines: Seq<Seq<char>>, line: Seq<char>)
    ensures
        services_of_lines(lines.push(line)) == if names_service(trimmed(line)) {
            services_of_lines(lines).push(trimmed(line))
        } else {
            services_of_lines(lines)
        },
{
    reveal(Seq::filter);
    let map = |line: Seq<char>| trimmed(line);
    let whole = lines.push(line).map_values(map);
    assert(whole.drop_last() == lines.map_values(map));
    assert(whole.last() == trimmed(line));
}

/// The network services in use that a listing names.
pub fn parse_macos_network_services(output: &str) -> (r: Vec<String>)
    ensures
        r.deep_view() == listed_services(output@),
{
    let rows = lines(output);
    let mut services: Vec<String> = Vec::new();
    if rows.len() == 0 {
        assert(services.deep_view() == Seq::<Seq<char>>::empty());
        return services;
    }
    let ghost body = lines_of(output@).skip(1);
    proof {
        reveal(Seq::filter);
        assert(services.deep_view() == services_of_lines(body.take(0)));
    }
    for i in 1..rows.len()
        invariant
            rows.deep_view() == lines_of(output@),
            body == lines_of(output@).skip(1),
            services.deep_view() == services_of_lines(body.take(i - 1)),
    {
        let ghost before = services.deep_view();
        let row = rows[i];
        proof {
            assert(row@ == rows.deep_view()[i as int]);
            assert(body[i - 1] == row@);
            assert(body.take(i as int) == body.take(i - 1).push(row@));
            lemma_services_push(body.take(i - 1), row@);
            reveal_strlit("*");
        }
        let line = trim(row);
        if line.unicode_len() > 0 && !starts_with(line, "*") {
            services.push(line.to_owned());
            assert(services.deep_view() == before.push(line@));
            assert(line@[0] != '*') by {
                if line@[0] == '*' {
                    assert(line@.take(1) == "*"@);
                }
            }
        } else {
            assert(!names_service(line@)) by {
                if line@.len() > 0 {
                    assert("*"@[0] == line@[0]);
                }
            }
        }
    }
    assert(body.take(rows.len() - 1) == body);
    services
}

/// The complaint about a report whose port is no number.
pub open spec fn unreadable_port(value: Seq<char>) -> PlatformErrorView {
    PlatformErrorView::OperationFailed(
        "解析 macOS 系统代理端口失败: "@ + number_error_text(parsed_u32(value)->Err_0),
    )
}

/// What is known of a proxy after one more line of its report. A line that does not name one of
/// the four properties changes nothing.
pub open spec fn after_line(
    state: MacosProxyStateView,
    line: Seq<char>,
) -> Result<MacosProxyStateView, PlatformErrorView> {
    match split_at_first(line, ':') {
        None => Ok(state),
        Some((name, text)) => {
            let key = trimmed(name);
            let value = trimmed(text);
            if key == "Enabled"@ {
                Ok(
                    MacosProxyStateView {
                        enabled: same_ignoring_ascii_case(value, "yes"@),
                        ..state
                    },
                )
            } else if key == "Server"@ {
                Ok(
                    MacosProxyStateView {
                        server: if value.len() == 0 {
                            None
                        } else {
                            Some(value)
                        },
                        ..state
                    },
                )
            } else if key == "Port"@ {
                if value.len() == 0 {
                    Ok(MacosProxyStateView { port: None, ..state })
                } else {
                    match parsed_u32(value) {
                        Ok(port) => Ok(MacosProxyStateView { port: Some(port), ..state }),
                        Err(_) => Err(unreadable_port(value)),
                    }
                }
            } else if key == "Authenticated Proxy Enabled"@ {
                Ok(
                    MacosProxyStateView {
                        authenticated: value == "1"@ || same_ignoring_ascii_case(value, "yes"@),
                        ..state
                    },
                )
            } else {
                Ok(state)
            }
        },
    }
}

/// What the lines of a report say, from the first to the last. A later line on a property counts
/// over an earlier one, and the first line that cannot be read decides.
pub open spec fn after_lines(lines: Seq<Seq<char>>) -> Result<
    MacosProxyStateView,
    PlatformErrorView,
>
    decreases lines.len(),
{
    if lines.len() == 0 {
        Ok(unset_proxy())
    } else {
        match after_lines(lines.drop_last()) {
            Ok(state) => after_line(state, lines.last()),
            Err(e) => Err(e),
        }
    }
}

/// What a report says of a proxy.
pub open spec fn reported_proxy(output: Seq<char>) -> Result<
    MacosProxyStateView,
    PlatformErrorView,
> {
    after_lines(lines_of(output))
}

proof fn lemma_after_lines_prefix(lines: Seq<Seq<char>>, k: int)
    requires
        0 <= k <= lines.len(),
    ensures
        after_lines(lines.take(k)) is Err ==> after_lines(lines) == after_lines(lines.take(k)),
    decreases lines.len(),
{
    if k == lines.len() {
        assert(lines.take(k) == lines);
    } else {
        lemma_after_lines_prefix(lines.drop_last(), k);
        assert(lines.drop_last().take(k) == lines.take(k));
    }
}

/// Takes one line of a report into account.
fn read_line(state: MacosProxyState, line: &str) -> (r: Result<MacosProxyState, PlatformError>)
    ensures
        match r {
            Ok(next) => after_line(state@, line@) == Ok::<_, PlatformErrorView>(next@),
            Err(e) => after_line(state@, line@) == Err::<MacosProxyStateView, _>(e@),
        },
{
    let (name, text) = match split_once(line, ':') {
        Some(parts) => parts,
        None => {
            return Ok(state);
        },
    };
    let key = trim(name);
    let value = trim(text);
    let mut state = state;
    if same_text(key, "Enabled") {
        state.enabled = eq_ignore_ascii_case(value, "yes");
    } else if same_text(key, "Server") {
        state.server =
        if value.unicode_len() == 0 {
            None
        } else {
            Some(value.to_owned())
        };
    } else if same_text(key, "Port") {
        if value.unicode_len() == 0 {
            state.port = None;
        } else {
            match parse_u32(value) {
                Ok(port) => {
                    state.port = Some(port);
                },
                Err(e) => {
                    let mut message = "解析 macOS 系统代理端口失败: ".to_owned();
                    message.append(e.message());
                    return Err(PlatformError::OperationFailed(message));
                },
            }
        }
    } else if same_text(key, "Authenticated Proxy Enabled") {
        state.authenticated = same_text(value, "1") || eq_ignore_ascii_case(value, "yes");
    }
    Ok(state)
}

/// What a report says of a proxy.
pub fn parse_macos_proxy_state(output: &str) -> (r: Result<MacosProxyState, PlatformError>)
    ensures
        match r {
            Ok(state) => reported_proxy(output@) == Ok::<_, PlatformErrorView>(state@),
            Err(e) => reported_proxy(output@) == Err::<MacosProxyStateView, _>(e@),
        },
{
    let rows = lines(output);
    let mut state = MacosProxyState::default();
    let ghost whole = lines_of(output@);
    for i in 0..rows.len()
        invariant
            rows.deep_view() == whole,
            whole == lines_of(output@),
            after_lines(whole.take(i as int)) == Ok::<_, PlatformErrorView>(state@),
    {
        let row = rows[i];
        proof {
            assert(row@ == rows.deep_view()[i as int]);
            assert(whole.take(i + 1).drop_last() == whole.take(i as int));
            assert(whole.take(i + 1).last() == row@);
            lemma_after_lines_prefix(whole, i + 1);
        }
        match read_line(state, row) {
            Ok(next) => {
                state = next;
            },
            Err(e) => {
                return Err(e);
            },
        }
    }
    assert(whole.take(rows.len() as int) == whole);
    Ok(state)
}

/// Every service that a listing names has a name, without white space around it, and is not marked
/// as disabled.
pub proof fn law_listed_services(output: Seq<char>)
    ensures
        forall|i: int|
            0 <= i < listed_services(output).len() ==> {
                let service = #[trigger] listed_services(output)[i];
                is_trimmed(service) && names_service(service)
            },
{
    if lines_of(output).len() > 0 {
        lemma_services_of_lines(lines_of(output).skip(1));
    }
}

proof fn lemma_services_of_lines(lines: Seq<Seq<char>>)
    ensures
        forall|i: int|
            0 <= i < services_of_lines(lines).len() ==> is_trimmed(
                #[trigger] services_of_lines(lines)[i],
            ) && names_service(services_of_lines(lines)[i]),
    decreases lines.len(),
{
    if lines.len() == 0 {
        reveal(Seq::filter);
    } else {
        lemma_services_of_lines(lines.drop_last());
        assert(lines.drop_last().push(lines.last()) == lines);
        lemma_services_push(lines.drop_last(), lines.last());
        law_trimmed(lines.last());
    }
}

/// Each line of a listing behind its heading counts for itself: it is a service where, without
/// white space around it, it is not empty and does not begin with an asterisk, and nothing
/// otherwise. It comes before what the following lines name, and takes nothing from them. The
/// heading is no service, and the end of the last line can be left out.
pub proof fn law_listed_line(heading: Seq<char>, line: Seq<char>, rest: Seq<char>)
    requires
        !heading.contains('\n'),
        !line.contains('\n'),
    ensures
        ({
            let name = trimmed(line);
            let others = listed_services(heading + seq!['\n'] + rest);
            let all = listed_services(heading + seq!['\n'] + line + seq!['\n'] + rest);
            if name.len() > 0 && name[0] != '*' {
                all == seq![name] + others
            } else {
                all == others
            }
        }),
        listed_services(heading).len() == 0,
        ({
            let text = heading + seq!['\n'] + rest;
            text.last() != '\n' ==> listed_services(text.push('\n')) == listed_services(text)
        }),
{
    let text = heading + seq!['\n'] + rest;
    let whole = heading + seq!['\n'] + line + seq!['\n'] + rest;
    let tail = line + seq!['\n'] + rest;
    assert(whole == heading + seq!['\n'] + tail);
    lemma_first_line(heading, whole, tail);
    lemma_first_line(line, tail, rest);
    lemma_first_line(heading, text, rest);
    assert(lines_of(whole).skip(1) == lines_of(tail));
    assert(lines_of(text).skip(1) == lines_of(rest));
    lemma_services_first(without_return(line), lines_of(rest));
    lemma_trimmed_without_return(line);
    lemma_first_index(heading, '\n');
    if first_index(heading, '\n') < heading.len() {
        assert(heading.contains(heading[first_index(heading, '\n')]));
    }
    reveal(Seq::filter);
    if heading.len() > 0 {
        assert(lines_of(heading) == seq![heading]);
        assert(lines_of(heading).skip(1).len() == 0);
    }
    if text.last() != '\n' {
        lemma_last_line_end(text);
        let map = |line: Seq<char>| trimmed(line);
        assert(lines_of(text.push('\n')).skip(1).map_values(map) == lines_of(text).skip(
            1,
        ).map_values(map));
    }
}

proof fn lemma_services_first(line: Seq<char>, lines: Seq<Seq<char>>)
    ensures
        services_of_lines(seq![line] + lines) == if names_service(trimmed(line)) {
            seq![trimmed(line)] + services_of_lines(lines)
        } else {
            services_of_lines(lines)
        },
    decreases lines.len(),
{
    let whole = seq![line] + lines;
    if lines.len() == 0 {
        reveal(Seq::filter);
        lemma_services_push(Seq::empty(), line);
        assert(Seq::<Seq<char>>::empty().push(line) == whole);
        assert(services_of_lines(lines) == Seq::<Seq<char>>::empty());
        assert(lines == Seq::<Seq<char>>::empty());
    } else {
        let front = lines.drop_last();
        lemma_services_first(line, front);
        lemma_services_push(front, lines.last());
        lemma_services_push(seq![line] + front, lines.last());
        assert(front.push(lines.last()) == lines);
        assert((seq![line] + front).push(lines.last()) == whole);
        let name = trimmed(lines.last());
        assert((seq![trimmed(line)] + services_of_lines(front)).push(name) == seq![trimmed(line)]
            + services_of_lines(front).push(name));
    }
}

/// The services are what stands on the lines with these numbers, in their order, and these are all
/// lines behind the heading that are not empty and do not begin with an asterisk.
pub open spec fn stand_at(
    services: Seq<Seq<char>>,
    lines: Seq<Seq<char>>,
    numbers: Seq<int>,
) -> bool {
    &&& numbers.len() == services.len()
    &&& forall|k: int|
        0 <= k < numbers.len() ==> 1 <= (#[trigger] numbers[k]) < lines.len() && services[k]
            == trimmed(lines[numbers[k]])
    &&& forall|j: int, k: int| 0 <= j < k < numbers.len() ==> numbers[j] < numbers[k]
    &&& forall|i: int|
        1 <= i < lines.len() ==> (numbers.contains(i) <==> trimmed(#[trigger] lines[i]).len() > 0
            && trimmed(lines[i])[0] != '*')
}

/// Every line of a listing behind the heading that, without white space around it, is not empty and
/// does not begin with an asterisk is among the services: in the order of the lines, and as often
/// as it stands there. Nothing else is.
pub proof fn law_listed_services_are_the_lines(output: Seq<char>)
    ensures
        exists|numbers: Seq<int>| stand_at(listed_services(output), lines_of(output), numbers),
{
    let lines = lines_of(output);
    if lines.len() == 0 {
        assert(stand_at(listed_services(output), lines, Seq::<int>::empty()));
    } else {
        lemma_stand_at(lines, lines.len() as int);
        let numbers = choose|numbers: Seq<int>|
            stand_at(services_of_lines(lines.take(lines.len() as int).skip(1)), lines.take(
                lines.len() as int,
            ), numbers);
        assert(lines.take(lines.len() as int) == lines);
        assert(stand_at(listed_services(output), lines, numbers));
    }
}

proof fn lemma_stand_at(lines: Seq<Seq<char>>, n: int)
    requires
        1 <= n <= lines.len(),
    ensures
        exists|numbers: Seq<int>|
            stand_at(services_of_lines(lines.take(n).skip(1)), lines.take(n), numbers),
    decreases n,
{
    let shown = lines.take(n);
    let body = shown.skip(1);
    if n == 1 {
        reveal(Seq::filter);
        assert(body == Seq::<Seq<char>>::empty());
        assert(services_of_lines(body) == Seq::<Seq<char>>::empty());
        assert(stand_at(services_of_lines(body), shown, Seq::<int>::empty()));
    } else {
        lemma_stand_at(lines, n - 1);
        let fewer = lines.take(n - 1);
        let before = services_of_lines(fewer.skip(1));
        let numbers = choose|numbers: Seq<int>| stand_at(before, fewer, numbers);
        let line = lines[n - 1];
        assert(body == fewer.skip(1).push(line));
        lemma_services_push(fewer.skip(1), line);
        assert forall|i: int| 1 <= i < fewer.len() implies #[trigger] fewer[i] == shown[i] by {}
        if names_service(trimmed(line)) {
            let more = numbers.push(n - 1);
            let services = services_of_lines(body);
            assert forall|i: int| 1 <= i < shown.len() implies (more.contains(i) <==> trimmed(
                #[trigger] shown[i],
            ).len() > 0 && trimmed(shown[i])[0] != '*') by {
                if i < n - 1 {
                    assert(fewer[i] == shown[i]);
                    if numbers.contains(i) {
                        let k = choose|k: int| 0 <= k < numbers.len() && numbers[k] == i;
                        assert(more[k] == i);
                    }
                    if more.contains(i) {
                        let k = choose|k: int| 0 <= k < more.len() && more[k] == i;
                        assert(numbers[k] == i);
                    }
                } else {
                    assert(more[numbers.len() as int] == i);
                }
            }
            assert(stand_at(services, shown, more));
        } else {
            assert forall|i: int| 1 <= i < shown.len() implies (numbers.contains(i) <==> trimmed(
                #[trigger] shown[i],
            ).len() > 0 && trimmed(shown[i])[0] != '*') by {
                if i < n - 1 {
                    assert(fewer[i] == shown[i]);
                } else if numbers.contains(i) {
                    let k = choose|k: int| 0 <= k < numbers.len() && numbers[k] == i;
                    assert(numbers[k] < fewer.len());
                }
            }
            assert(stand_at(services_of_lines(body), shown, numbers));
        }
    }
}

/// A report says nothing before its first line. Each further line that names one of the four
/// properties sets just that property, over what earlier lines said of it, and any other line
/// changes nothing. A port that is no number makes the whole report unreadable, whatever follows.
/// White space around the name and the value makes no difference.
pub proof fn law_report_line(text: Seq<char>, name: Seq<char>, value: Seq<char>)
    requires
        text.len() == 0 || text.last() == '\n',
        !name.contains('\n') && !name.contains(':'),
        !value.contains('\n'),
    ensures
        reported_proxy(Seq::empty()) == Ok::<_, PlatformErrorView>(
            (MacosProxyStateView {
                enabled: false,
                server: None,
                port: None,
                authenticated: false,
            }),
        ),
        reported_proxy(text + name.push('\n')) == reported_proxy(text),
        ({
            let before = reported_proxy(text);
            let after = reported_proxy(text + (name.push(':') + value).push('\n'));
            let key = trimmed(name);
            let word = trimmed(value);
            match before {
                Err(_) => after == before,
                Ok(state) => {
                    &&& key == "Enabled"@ ==> after == Ok::<_, PlatformErrorView>(
                        MacosProxyStateView {
                            enabled: same_ignoring_ascii_case(word, "yes"@),
                            ..state
                        },
                    )
                    &&& key == "Server"@ && word.len() > 0 ==> after == Ok::<_, PlatformErrorView>(
                        MacosProxyStateView { server: Some(word), ..state },
                    )
                    &&& key == "Server"@ && word.len() == 0 ==> after == Ok::<_, PlatformErrorView>(
                        MacosProxyStateView { server: None, ..state },
                    )
                    &&& key == "Port"@ && word.len() == 0 ==> after == Ok::<_, PlatformErrorView>(
                        MacosProxyStateView { port: None, ..state },
                    )
                    &&& key == "Port"@ && word.len() > 0 ==> match parsed_u32(word) {
                        Ok(port) => after == Ok::<_, PlatformErrorView>(
                            MacosProxyStateView { port: Some(port), ..state },
                        ),
                        Err(e) => after == Err::<MacosProxyStateView, _>(
                            PlatformErrorView::OperationFailed(
                                "解析 macOS 系统代理端口失败: "@ + number_error_text(e),
                            ),
                        ),
                    }
                    &&& key == "Authenticated Proxy Enabled"@ ==> after == Ok::<
                        _,
                        PlatformErrorView,
                    >(
                        MacosProxyStateView {
                            authenticated: word == "1"@ || same_ignoring_ascii_case(word, "yes"@),
                            ..state
                        },
                    )
                    &&& key != "Enabled"@ && key != "Server"@ && key != "Port"@ && key
                        != "Authenticated Proxy Enabled"@ ==> after == before
                },
            }
        }),
{
    reveal_strlit("Enabled");
    reveal_strlit("Server");
    reveal_strlit("Port");
    reveal_strlit("Authenticated Proxy Enabled");
    assert("Enabled"@.len() == 7 && "Server"@.len() == 6 && "Port"@.len() == 4);
    assert("Authenticated Proxy Enabled"@.len() == 27);
    lemma_one_more_line(text, name);
    let whole = lines_of(text).push(without_return(name));
    assert(whole.drop_last() == lines_of(text));
    assert forall|i: int| 0 <= i < without_return(name).len() implies without_return(name)[i]
        != ':' by {
        assert(without_return(name)[i] == name[i]);
        assert(name.contains(name[i]));
    }
    lemma_no_colon(without_return(name));
    let line = name.push(':') + value;
    assert(!line.contains('\n')) by {
        if line.contains('\n') {
            let i = choose|i: int| 0 <= i < line.len() && line[i] == '\n';
            if i < name.len() {
                assert(name[i] == '\n');
            } else {
                assert(value[i - name.len() - 1] == '\n');
            }
        }
    }
    lemma_one_more_line(text, line);
    let other = lines_of(text).push(without_return(line));
    assert(other.drop_last() == lines_of(text));
    let kept = without_return(value);
    assert(without_return(line) == name.push(':') + kept) by {
        if value.len() > 0 {
            assert(line.last() == value.last());
            if value.last() == '\r' {
                assert(line.drop_last() == name.push(':') + value.drop_last());
            }
        } else {
            assert(line == name.push(':'));
            assert(line.last() == ':');
            assert(kept == value);
        }
    }
    let shown = name.push(':') + kept;
    lemma_first_index(shown, ':');
    assert(shown[name.len() as int] == ':');
    assert forall|i: int| 0 <= i < name.len() implies shown[i] != ':' by {
        assert(shown[i] == name[i]);
        assert(name.contains(name[i]));
    }
    assert(first_index(shown, ':') == name.len());
    assert(shown.take(name.len() as int) == name);
    assert(shown.skip(name.len() as int + 1) == kept);
    lemma_trimmed_without_return(value);
}

proof fn lemma_no_colon(line: Seq<char>)
    requires
        forall|i: int| 0 <= i < line.len() ==> line[i] != ':',
    ensures
        split_at_first(line, ':') is None,
{
    lemma_first_index(line, ':');
}

/// A line that gives a property of a proxy.
pub open spec fn property_line(name: Seq<char>, value: Seq<char>) -> Seq<char> {
    name + ": "@ + value
}

/// The lines that report a proxy.
pub open spec fn report_lines(state: MacosProxyStateView) -> Seq<Seq<char>> {
    seq![
        property_line("Enabled"@, if state.enabled {
            "Yes"@
        } else {
            "No"@
        }),
        property_line("Server"@, match state.server {
            Some(server) => server,
            None => Seq::empty(),
        }),
        property_line("Port"@, match state.port {
            Some(port) => decimal_text(port as nat),
            None => Seq::empty(),
        }),
        property_line("Authenticated Proxy Enabled"@, if state.authenticated {
            "1"@
        } else {
            "0"@
        }),
    ]
}

/// What the report of a proxy says is just that proxy.
pub proof fn law_report_round_trip(state: MacosProxyStateView)
    requires
        state.server matches Some(server) ==> server.len() > 0 && is_trimmed(server),
    ensures
        after_lines(report_lines(state)) == Ok::<_, PlatformErrorView>(state),
{
    reveal_strlit("Enabled");
    reveal_strlit("Server");
    reveal_strlit("Port");
    reveal_strlit("Authenticated Proxy Enabled");
    reveal_strlit("Yes");
    reveal_strlit("yes");
    reveal_strlit("No");
    reveal_strlit("1");
    reveal_strlit("0");
    let lines = report_lines(state);
    let enabled = if state.enabled {
        "Yes"@
    } else {
        "No"@
    };
    let server = match state.server {
        Some(server) => server,
        None => Seq::empty(),
    };
    let port = match state.port {
        Some(port) => decimal_text(port as nat),
        None => Seq::empty(),
    };
    let authenticated = if state.authenticated {
        "1"@
    } else {
        "0"@
    };
    match state.port {
        Some(number) => {
            law_decimal_round_trip(number);
            lemma_decimal_text(number as nat);
            assert(is_digit(port[0]) && is_digit(port.last()));
        },
        None => {},
    }
    lemma_property_line("Enabled"@, enabled);
    lemma_property_line("Server"@, server);
    lemma_property_line("Port"@, port);
    lemma_property_line("Authenticated Proxy Enabled"@, authenticated);
    assert(same_ignoring_ascii_case("Yes"@, "yes"@));
    assert(!same_ignoring_ascii_case("No"@, "yes"@));
    assert(!same_ignoring_ascii_case("0"@, "yes"@));
    assert("0"@ != "1"@) by {
        assert("0"@[0] != "1"@[0]);
    }
    assert("Server"@ != "Enabled"@);
    assert("Port"@ != "Enabled"@ && "Port"@ != "Server"@);
    assert("Authenticated Proxy Enabled"@ != "Enabled"@);
    assert("Authenticated Proxy Enabled"@ != "Server"@);
    assert("Authenticated Proxy Enabled"@ != "Port"@);
    assert(lines.drop_last() == lines.take(3));
    assert(lines.take(3).drop_last() == lines.take(2));
    assert(lines.take(2).drop_last() == lines.take(1));
    assert(lines.take(1).drop_last() == lines.take(0));
    reveal_with_fuel(after_lines, 5);
}

/// The report of a proxy: its lines, each with its end.
pub open spec fn report_text(state: MacosProxyStateView) -> Seq<char> {
    with_ends(report_lines(state))
}

/// The lines behind one another, each with its end.
pub open spec fn with_ends(lines: Seq<Seq<char>>) -> Seq<char>
    decreases lines.len(),
{
    if lines.len() == 0 {
        Seq::empty()
    } else {
        lines[0].push('\n') + with_ends(lines.skip(1))
    }
}

/// What the text of a proxy's report says is just that proxy.
pub proof fn law_report_text_round_trip(state: MacosProxyStateView)
    requires
        state.server matches Some(server) ==> server.len() > 0 && is_trimmed(server)
            && !server.contains('\n'),
    ensures
        reported_proxy(report_text(state)) == Ok::<_, PlatformErrorView>(state),
{
    reveal_strlit("Enabled");
    reveal_strlit("Server");
    reveal_strlit("Port");
    reveal_strlit("Authenticated Proxy Enabled");
    reveal_strlit("Yes");
    reveal_strlit("No");
    reveal_strlit("1");
    reveal_strlit("0");
    reveal_strlit(": ");
    let lines = report_lines(state);
    assert(is_whole_line(lines[0]));
    assert(is_whole_line(lines[1])) by {
        let server = match state.server {
            Some(server) => server,
            None => Seq::empty(),
        };
        let line = property_line("Server"@, server);
        assert forall|i: int| 0 <= i < line.len() implies line[i] != '\n' by {
            if i >= 8 {
                assert(line[i] == server[i - 8]);
                assert(server.contains(server[i - 8]));
            }
        }
        if server.len() > 0 {
            assert(line.last() == server.last());
        } else {
            assert(line.last() == ' ');
        }
    }
    assert(is_whole_line(lines[2])) by {
        match state.port {
            Some(port) => {
                let digits = decimal_text(port as nat);
                let line = property_line("Port"@, digits);
                lemma_decimal_text(port as nat);
                assert forall|i: int| 0 <= i < line.len() implies line[i] != '\n' by {
                    if i >= 6 {
                        assert(is_digit(digits[i - 6]));
                        assert(line[i] == digits[i - 6]);
                    }
                }
                assert(is_digit(digits[digits.len() - 1]));
                assert(line.last() == digits.last());
            },
            None => {},
        }
    }
    assert(is_whole_line(lines[3]));
    lemma_lines_with_ends(lines);
    law_report_round_trip(state);
}

/// The text is what one line holds: no line end is in it, nor what would count to one behind it.
pub open spec fn is_whole_line(line: Seq<char>) -> bool {
    &&& forall|i: int| 0 <= i < line.len() ==> line[i] != '\n'
    &&& line.len() > 0 ==> line.last() != '\r'
}

proof fn lemma_lines_with_ends(lines: Seq<Seq<char>>)
    requires
        forall|i: int| 0 <= i < lines.len() ==> is_whole_line(#[trigger] lines[i]),
    ensures
        lines_of(with_ends(lines)) == lines,
    decreases lines.len(),
{
    if lines.len() > 0 {
        let line = lines[0];
        let rest = lines.skip(1);
        let text = with_ends(lines);
        assert forall|i: int| 0 <= i < rest.len() implies is_whole_line(#[trigger] rest[i]) by {
            assert(rest[i] == lines[i + 1]);
        }
        lemma_lines_with_ends(rest);
        assert(is_whole_line(line));
        lemma_first_index(text, '\n');
        assert(text[line.len() as int] == '\n');
        assert forall|i: int| 0 <= i < line.len() implies text[i] != '\n' by {
            assert(text[i] == line[i]);
        }
        assert(first_index(text, '\n') == line.len());
        assert(text.take(line.len() as int) == line);
        assert(text.skip(line.len() as int + 1) == with_ends(rest));
        assert(seq![line] + rest == lines);
    }
}

proof fn lemma_property_line(name: Seq<char>, value: Seq<char>)
    requires
        is_trimmed(name),
        is_trimmed(value),
        forall|i: int| 0 <= i < name.len() ==> name[i] != ':',
    ensures
        split_at_first(property_line(name, value), ':') matches Some((first, second)) && trimmed(
            first,
        ) == name && trimmed(second) == value,
{
    reveal_strlit(": ");
    let line = property_line(name, value);
    lemma_first_index(line, ':');
    assert(line[name.len() as int] == ':');
    assert forall|i: int| 0 <= i < name.len() implies line[i] != ':' by {
        assert(line[i] == name[i]);
    }
    assert(first_index(line, ':') == name.len());
    assert(line.take(name.len() as int) == name);
    let second = line.skip(name.len() as int + 1);
    assert(second.len() == value.len() + 1 && second[0] == ' ');
    assert(second.drop_first() == value);
    law_trimmed(name);
    law_trimmed(value);
    assert(trim_start(second) == trim_start(value));
}

} // verus!
