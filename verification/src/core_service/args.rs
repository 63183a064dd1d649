//! The command lines on which the service is installed, started and run.

use vstd::prelude::*;
use vstd::string::*;
use vstd::utf8::{encode_utf8, valid_utf8};

use crate::core_service::types::{
    service_paths, CoreServicePaths, CoreServicePathsView, CORE_SERVICE_ARG, SERVICE_OWNER_PID_ARG,
};
use crate::core_service::wide::{law_until_zero, text_from_wide, text_of_units, until_zero};
use crate::errors::{PlatformError, PlatformErrorView};
use crate::host::HostPlatform;
use crate::number::{
    decimal, decimal_text, law_decimal_round_trip, parse_u32, parsed_u32, NumberError,
};
use crate::paths::{joined, law_named_path, path_text, OsPath};
use crate::text::same_text;

verus! {

/// The command line that the service is installed with.
pub open spec fn binary_args(
    exe: Seq<char>,
    config_dir: Seq<char>,
    data_dir: Seq<char>,
    cache_dir: Seq<char>,
) -> Seq<Seq<char>> {
    seq![
        exe,
        "--air-mihomo-service"@,
        "--config-dir"@,
        config_dir,
        "--data-dir"@,
        data_dir,
        "--cache-dir"@,
        cache_dir,
    ]
}

/// The complaint where the path of the running program cannot be told.
pub open spec fn unknown_program(error: Seq<char>) -> PlatformErrorView {
    PlatformErrorView::OperationFailed("读取当前程序路径失败: "@ + error)
}

/// The command line that installs the program at `exe` as the service for these directories.
pub open spec fn install_args(
    host: HostPlatform,
    exe: Seq<u8>,
    paths: CoreServicePathsView,
) -> Seq<Seq<char>> {
    binary_args(
        path_text(host, exe),
        path_text(host, paths.config_dir),
        path_text(host, paths.data_dir),
        path_text(host, paths.cache_dir),
    )
}

/// The command line that installs the running program as the service for `paths`. Its own path, or
/// the text of the failure to tell it, is given.
pub fn service_binary_args(
    host: HostPlatform,
    current_exe: Result<OsPath, String>,
    paths: &CoreServicePaths,
) -> (r: Result<Vec<String>, PlatformError>)
    ensures
        match (current_exe, r) {
            (Ok(exe), Ok(args)) => args.deep_view() == install_args(host, exe@, paths@),
            (Err(error), Err(e)) => e@ == unknown_program(error@),
            _ => false,
        },
{
    match current_exe {
        Ok(exe) => {
            let args = vec![
                exe.to_text(host),
                CORE_SERVICE_ARG.to_owned(),
                "--config-dir".to_owned(),
                paths.config_dir.to_text(host),
                "--data-dir".to_owned(),
                paths.data_dir.to_text(host),
                "--cache-dir".to_owned(),
                paths.cache_dir.to_text(host),
            ];
            assert(args.deep_view() == install_args(host, exe@, paths@));
            Ok(args)
        },
        Err(error) => {
            let mut message = "读取当前程序路径失败: ".to_owned();
            message.append(error.as_str());
            Err(PlatformError::OperationFailed(message))
        },
    }
}

/// The arguments that tell the service which process it belongs to.
pub open spec fn start_args(owner_pid: u32) -> Seq<Seq<char>> {
    seq!["--owner-pid"@, decimal_text(owner_pid as nat)]
}

/// The arguments that tell the service which process it belongs to.
pub fn service_start_args(owner_pid: u32) -> (r: Vec<String>)
    ensures
        r.deep_view() == start_args(owner_pid),
{
    vec![SERVICE_OWNER_PID_ARG.to_owned(), decimal(owner_pid)]
}

/// The process number that the argument at `i` announces and the next one gives.
pub open spec fn owner_pid_at(args: Seq<Seq<char>>, i: int) -> Option<u32> {
    if args[i] == "--owner-pid"@ {
        match parsed_u32(args[i + 1]) {
            Ok(pid) => if pid > 0 {
                Some(pid)
            } else {
                None
            },
            Err(_) => None,
        }
    } else {
        None
    }
}

/// The first process number other than zero that the arguments give.
pub open spec fn owner_pid_of(args: Seq<Seq<char>>) -> Option<u32>
    decreases args.len(),
{
    if args.len() < 2 {
        None
    } else {
        match owner_pid_at(args, 0) {
            Some(pid) => Some(pid),
            None => owner_pid_of(args.skip(1)),
        }
    }
}

/// The process that the service belongs to.
pub fn service_owner_pid_from_args(args: &[String]) -> (r: Option<u32>)
    ensures
        r == owner_pid_of(args.deep_view()),
{
    let ghost texts = args.deep_view();
    let mut i: usize = 0;
    assert(texts.skip(0) == texts);
    while i < args.len() && 1 < args.len() - i
        invariant
            i <= args.len(),
            texts == args.deep_view(),
            owner_pid_of(texts) == owner_pid_of(texts.skip(i as int)),
        decreases args.len() - i,
    {
        let ghost rest = texts.skip(i as int);
        assert(rest[0] == args@[i as int]@);
        assert(rest[1] == args@[i + 1]@);
        if same_text(args[i].as_str(), SERVICE_OWNER_PID_ARG) {
            match parse_u32(args[i + 1].as_str()) {
                Ok(pid) => {
                    if pid > 0 {
                        return Some(pid);
                    }
                },
                Err(_) => {},
            }
        }
        assert(rest.skip(1) == texts.skip(i + 1));
        i = i + 1;
    }
    None
}

/// The directories named on a command line, as far as they are named.
pub struct NamedDirs {
    pub config_dir: Option<Seq<char>>,
    pub data_dir: Option<Seq<char>>,
    pub cache_dir: Option<Seq<char>>,
}

/// The directories that `args` name, where `found` were named before. The argument behind a flag
/// is its directory, whatever it looks like; a flag without one takes an earlier directory back.
pub open spec fn named_dirs(args: Seq<Seq<char>>, found: NamedDirs) -> NamedDirs
    decreases args.len(),
{
    let value = if args.len() > 1 {
        Some(args[1])
    } else {
        None
    };
    let rest = if args.len() > 1 {
        args.skip(2)
    } else {
        Seq::empty()
    };
    if args.len() == 0 {
        found
    } else if args[0] == "--config-dir"@ {
        named_dirs(rest, NamedDirs { config_dir: value, ..found })
    } else if args[0] == "--data-dir"@ {
        named_dirs(rest, NamedDirs { data_dir: value, ..found })
    } else if args[0] == "--cache-dir"@ {
        named_dirs(rest, NamedDirs { cache_dir: value, ..found })
    } else {
        named_dirs(args.skip(1), found)
    }
}

/// The directories that a process' command line names; its first element is the program.
pub open spec fn dirs_of_command_line(args: Seq<Seq<char>>) -> NamedDirs {
    let none = NamedDirs { config_dir: None, data_dir: None, cache_dir: None };
    if args.len() == 0 {
        none
    } else {
        named_dirs(args.skip(1), none)
    }
}

/// The directories of a service whose command line names these, or the complaint about the first
/// that is missing.
pub open spec fn paths_found(host: HostPlatform, dirs: NamedDirs) -> Result<
    CoreServicePathsView,
    PlatformErrorView,
> {
    match (dirs.config_dir, dirs.data_dir, dirs.cache_dir) {
        (Some(config_dir), Some(data_dir), Some(cache_dir)) => Ok(
            service_paths(
                host,
                encode_utf8(config_dir),
                encode_utf8(data_dir),
                encode_utf8(cache_dir),
            ),
        ),
        (None, _, _) => Err(PlatformErrorView::OperationFailed("服务缺少配置目录"@)),
        (_, None, _) => Err(PlatformErrorView::OperationFailed("服务缺少数据目录"@)),
        _ => Err(PlatformErrorView::OperationFailed("服务缺少缓存目录"@)),
    }
}

/// The directories of the service that was started with the command line `args`, the program's
/// own name in front.
pub fn service_paths_from_args(host: HostPlatform, args: &[String]) -> (r: Result<
    CoreServicePaths,
    PlatformError,
>)
    ensures
        ({
            let dirs = dirs_of_command_line(args.deep_view());
            match r {
                Ok(paths) => paths_found(host, dirs) == Ok::<_, PlatformErrorView>(paths@),
                Err(e) => paths_found(host, dirs) == Err::<CoreServicePathsView, _>(e@),
            }
        }),
{
    let ghost texts = args.deep_view();
    let mut config_dir: Option<String> = None;
    let mut data_dir: Option<String> = None;
    let mut cache_dir: Option<String> = None;
    let mut i: usize = 1;
    while i < args.len()
        invariant
            1 <= i,
            i <= args.len() || args.len() == 0,
            texts == args.deep_view(),
            args.len() > 0 ==> dirs_of_command_line(texts) == named_dirs(
                texts.skip(i as int),
                NamedDirs {
                    config_dir: config_dir.deep_view(),
                    data_dir: data_dir.deep_view(),
                    cache_dir: cache_dir.deep_view(),
                },
            ),
            args.len() == 0 ==> config_dir is None && data_dir is None && cache_dir is None,
        decreases args.len() - i,
    {
        let ghost rest = texts.skip(i as int);
        assert(rest[0] == args@[i as int]@);
        assert(rest.skip(1) == texts.skip(i + 1));
        let arg = args[i].as_str();
        i = i + 1;
        let flag: bool = same_text(arg, "--config-dir") || same_text(arg, "--data-dir")
            || same_text(arg, "--cache-dir");
        if flag {
            let value: Option<String> = if i < args.len() {
                assert(rest[1] == args@[i as int]@);
                Some(args[i].clone())
            } else {
                None
            };
            assert(value.deep_view() == if rest.len() > 1 {
                Some(rest[1])
            } else {
                None
            });
            if i < args.len() {
                assert(rest.skip(2) == texts.skip(i + 1));
                i = i + 1;
            } else {
                assert(texts.skip(i as int) == Seq::<Seq<char>>::empty());
            }
            if same_text(arg, "--config-dir") {
                config_dir = value;
            } else if same_text(arg, "--data-dir") {
                data_dir = value;
            } else {
                cache_dir = value;
            }
        }
    }
    assert(args.len() > 0 ==> texts.skip(i as int).len() == 0);
    let config_dir: String = match config_dir {
        Some(dir) => dir,
        None => {
            return Err(PlatformError::OperationFailed("服务缺少配置目录".to_owned()));
        },
    };
    let data_dir: String = match data_dir {
        Some(dir) => dir,
        None => {
            return Err(PlatformError::OperationFailed("服务缺少数据目录".to_owned()));
        },
    };
    let cache_dir: String = match cache_dir {
        Some(dir) => dir,
        None => {
            return Err(PlatformError::OperationFailed("服务缺少缓存目录".to_owned()));
        },
    };
    Ok(
        CoreServicePaths::from_base_dirs(
            host,
            &OsPath::from_text(config_dir.as_str()),
            &OsPath::from_text(data_dir.as_str()),
            &OsPath::from_text(cache_dir.as_str()),
        ),
    )
}

/// The texts of the arguments that are there, in their order.
pub open spec fn texts_of_argv(argv: Seq<Option<Seq<u16>>>) -> Seq<Seq<char>>
    decreases argv.len(),
{
    if argv.len() == 0 {
        Seq::empty()
    } else {
        let front = texts_of_argv(argv.drop_last());
        match argv.last() {
            Some(units) => front.push(text_of_units(until_zero(units))),
            None => front,
        }
    }
}

/// The arguments that the service control manager hands over. Each comes as its units up to the
/// first zero unit, or as `None` where the manager gives no address.
pub fn service_args_from_argv(argv: &Vec<Option<Vec<u16>>>) -> (r: Vec<String>)
    ensures
        r.deep_view() == texts_of_argv(argv.deep_view()),
{
    let mut r: Vec<String> = Vec::new();
    let ghost whole = argv.deep_view();
    assert(r.deep_view() == texts_of_argv(whole.take(0)));
    for i in 0..argv.len()
        invariant
            whole == argv.deep_view(),
            r.deep_view() == texts_of_argv(whole.take(i as int)),
    {
        let ghost before = r.deep_view();
        assert(whole.take(i + 1).drop_last() == whole.take(i as int));
        assert(whole.take(i + 1).last() == argv@[i as int].deep_view());
        match &argv[i] {
            Some(units) => {
                assert(units.deep_view() == units@);
                let text = text_from_wide(units);
                r.push(text);
                assert(r.deep_view() == before.push(text@));
            },
            None => {},
        }
    }
    assert(whole.take(argv.len() as int) == whole);
    r
}

/// A service that was started for a process other than number zero finds that process again.
pub proof fn law_owner_pid_round_trip(owner_pid: u32)
    ensures
        owner_pid_of(start_args(owner_pid)) == (if owner_pid > 0 {
            Some(owner_pid)
        } else {
            None
        }),
{
    law_decimal_round_trip(owner_pid);
    reveal_with_fuel(owner_pid_of, 2);
    assert(start_args(owner_pid).skip(1).len() == 1);
}

/// A service that was installed for three directories finds them again on its command line,
/// whatever the directories and the program are called.
pub proof fn law_service_paths_round_trip(
    exe: Seq<char>,
    config_dir: Seq<char>,
    data_dir: Seq<char>,
    cache_dir: Seq<char>,
)
    ensures
        dirs_of_command_line(binary_args(exe, config_dir, data_dir, cache_dir)) == (NamedDirs {
            config_dir: Some(config_dir),
            data_dir: Some(data_dir),
            cache_dir: Some(cache_dir),
        }),
{
    reveal_strlit("--air-mihomo-service");
    reveal_strlit("--config-dir");
    reveal_strlit("--data-dir");
    reveal_strlit("--cache-dir");
    let args = binary_args(exe, config_dir, data_dir, cache_dir);
    assert("--config-dir"@.len() == 12);
    assert("--data-dir"@.len() == 10);
    assert("--cache-dir"@.len() == 11);
    assert("--air-mihomo-service"@.len() == 20);
    let a1 = args.skip(1);
    let a2 = a1.skip(1);
    let a4 = a2.skip(2);
    let a6 = a4.skip(2);
    let a8 = a6.skip(2);
    assert(a1[0] == "--air-mihomo-service"@);
    assert(a2[0] == "--config-dir"@ && a2[1] == config_dir);
    assert(a4[0] == "--data-dir"@ && a4[1] == data_dir);
    assert(a6[0] == "--cache-dir"@ && a6[1] == cache_dir);
    assert(a8.len() == 0);
    let none = NamedDirs { config_dir: None, data_dir: None, cache_dir: None };
    let one = NamedDirs { config_dir: Some(config_dir), ..none };
    let two = NamedDirs { data_dir: Some(data_dir), ..one };
    let three = NamedDirs { cache_dir: Some(cache_dir), ..two };
    assert(named_dirs(a8, three) == three);
    assert(named_dirs(a6, two) == three);
    assert(named_dirs(a4, one) == three);
    assert(named_dirs(a2, none) == three);
    assert(named_dirs(a1, none) == three);
}

/// A service that was installed for three directories works in just those, and in those of the core
/// and the logs below them. The directories have to be texts, since a command line is one.
pub proof fn law_service_works_where_it_was_installed(
    host: HostPlatform,
    exe: Seq<u8>,
    paths: CoreServicePathsView,
)
    requires
        valid_utf8(paths.config_dir),
        valid_utf8(paths.data_dir),
        valid_utf8(paths.cache_dir),
    ensures
        paths_found(host, dirs_of_command_line(install_args(host, exe, paths))) == Ok::<
            _,
            PlatformErrorView,
        >(service_paths(host, paths.config_dir, paths.data_dir, paths.cache_dir)),
{
    law_service_paths_round_trip(
        path_text(host, exe),
        path_text(host, paths.config_dir),
        path_text(host, paths.data_dir),
        path_text(host, paths.cache_dir),
    );
    law_named_path(host, paths.config_dir);
    law_named_path(host, paths.data_dir);
    law_named_path(host, paths.cache_dir);
}

/// The service is installed with the program in front, the argument that makes it the service, and
/// each of the three directories behind its own flag.
pub proof fn law_install_args(host: HostPlatform, exe: Seq<u8>, paths: CoreServicePathsView)
    ensures
        ({
            let args = install_args(host, exe, paths);
            &&& args.len() == 8
            &&& args[0] == path_text(host, exe)
            &&& args[1] == "--air-mihomo-service"@
            &&& args[2] == "--config-dir"@ && args[3] == path_text(host, paths.config_dir)
            &&& args[4] == "--data-dir"@ && args[5] == path_text(host, paths.data_dir)
            &&& args[6] == "--cache-dir"@ && args[7] == path_text(host, paths.cache_dir)
        }),
{
}

/// The service is told the process that it belongs to as the decimal number behind `--owner-pid`.
pub proof fn law_start_args(owner_pid: u32)
    ensures
        start_args(owner_pid).len() == 2,
        start_args(owner_pid)[0] == "--owner-pid"@,
        parsed_u32(start_args(owner_pid)[1]) == Ok::<_, NumberError>(owner_pid),
{
    law_decimal_round_trip(owner_pid);
}

/// The process is looked for from the front. The argument behind `--owner-pid` gives it where it is
/// a number other than zero; else, and at any other argument, the search goes on one argument on. A
/// single argument gives none.
pub proof fn law_owner_pid_search(first: Seq<char>, second: Seq<char>, rest: Seq<Seq<char>>)
    ensures
        owner_pid_of(Seq::empty()) is None,
        owner_pid_of(seq![first]) is None,
        ({
            let found = owner_pid_of(seq![first, second] + rest);
            let later = owner_pid_of(seq![second] + rest);
            match parsed_u32(second) {
                Ok(pid) => if first == "--owner-pid"@ && pid != 0 {
                    found == Some(pid)
                } else {
                    found == later
                },
                Err(_) => found == later,
            }
        }),
{
    assert((seq![first, second] + rest).skip(1) == seq![second] + rest);
}

/// The program in front of a command line names no directory. What follows is read from the front:
/// a flag and the argument behind it give the flag's directory, and only that one, over an earlier
/// one. Any other argument is passed over. A flag at the end takes its directory back.
pub proof fn law_named_dirs(
    program: Seq<char>,
    flag: Seq<char>,
    value: Seq<char>,
    rest: Seq<Seq<char>>,
    found: NamedDirs,
)
    ensures
        dirs_of_command_line(seq![program] + rest) == named_dirs(
            rest,
            NamedDirs { config_dir: None, data_dir: None, cache_dir: None },
        ),
        dirs_of_command_line(Seq::empty()) == (NamedDirs {
            config_dir: None,
            data_dir: None,
            cache_dir: None,
        }),
        named_dirs(Seq::empty(), found) == found,
        flag == "--config-dir"@ ==> named_dirs(seq![flag, value] + rest, found) == named_dirs(
            rest,
            NamedDirs { config_dir: Some(value), ..found },
        ) && named_dirs(seq![flag], found) == (NamedDirs { config_dir: None, ..found }),
        flag == "--data-dir"@ ==> named_dirs(seq![flag, value] + rest, found) == named_dirs(
            rest,
            NamedDirs { data_dir: Some(value), ..found },
        ) && named_dirs(seq![flag], found) == (NamedDirs { data_dir: None, ..found }),
        flag == "--cache-dir"@ ==> named_dirs(seq![flag, value] + rest, found) == named_dirs(
            rest,
            NamedDirs { cache_dir: Some(value), ..found },
        ) && named_dirs(seq![flag], found) == (NamedDirs { cache_dir: None, ..found }),
        flag != "--config-dir"@ && flag != "--data-dir"@ && flag != "--cache-dir"@ ==> named_dirs(
            seq![flag] + rest,
            found,
        ) == named_dirs(rest, found),
{
    reveal_strlit("--config-dir");
    reveal_strlit("--data-dir");
    reveal_strlit("--cache-dir");
    assert("--config-dir"@.len() == 12 && "--data-dir"@.len() == 10 && "--cache-dir"@.len() == 11);
    assert((seq![program] + rest).skip(1) == rest);
    assert((seq![flag] + rest).skip(1) == rest);
    assert((seq![flag, value] + rest).skip(2) == rest);
    assert((seq![flag, value] + rest)[1] == value);
    reveal_with_fuel(named_dirs, 2);
}

/// Where all three directories are named, the service works in those, as the texts name them. Else
/// the first that is missing is complained about: the configuration directory before the data
/// directory, and that before the cache directory.
pub proof fn law_paths_found(host: HostPlatform, dirs: NamedDirs)
    ensures
        dirs.config_dir is None ==> paths_found(host, dirs) == Err::<CoreServicePathsView, _>(
            PlatformErrorView::OperationFailed("服务缺少配置目录"@),
        ),
        dirs.config_dir is Some && dirs.data_dir is None ==> paths_found(host, dirs) == Err::<
            CoreServicePathsView,
            _,
        >(PlatformErrorView::OperationFailed("服务缺少数据目录"@)),
        dirs.config_dir is Some && dirs.data_dir is Some && dirs.cache_dir is None ==> paths_found(
            host,
            dirs,
        ) == Err::<CoreServicePathsView, _>(PlatformErrorView::OperationFailed("服务缺少缓存目录"@)),
        dirs.config_dir matches Some(config) ==> (dirs.data_dir matches Some(data) ==> (
        dirs.cache_dir matches Some(cache) ==> {
            &&& paths_found(host, dirs) matches Ok(paths)
            &&& paths.config_dir == encode_utf8(config)
            &&& paths.data_dir == encode_utf8(data)
            &&& paths.cache_dir == encode_utf8(cache)
        })),
{
}

/// Each argument that is there counts for itself, with what stands before its first zero unit, and
/// one that is not there makes no difference.
pub proof fn law_texts_of_argv(argv: Seq<Option<Seq<u16>>>, units: Seq<u16>, tail: Seq<u16>)
    requires
        !units.contains(0),
    ensures
        texts_of_argv(Seq::empty()).len() == 0,
        texts_of_argv(argv.push(None)) == texts_of_argv(argv),
        texts_of_argv(argv.push(Some(units))) == texts_of_argv(argv).push(text_of_units(units)),
        texts_of_argv(argv.push(Some(units.push(0) + tail))) == texts_of_argv(argv).push(
            text_of_units(units),
        ),
{
    assert(argv.push(None).drop_last() == argv);
    assert(argv.push(Some(units)).drop_last() == argv);
    assert(argv.push(Some(units.push(0) + tail)).drop_last() == argv);
    law_until_zero(units, tail);
}

/// A service that is installed with a command line and then started with it works in just the three
/// directories that it was installed for, and in those of the core and the logs below them. The
/// directories have to be texts, since a command line is one.
pub proof fn law_installed_service_starts(
    host: HostPlatform,
    exe: OsPath,
    paths: &CoreServicePaths,
    installed: Result<Vec<String>, PlatformError>,
    args: &[String],
    found: Result<CoreServicePaths, PlatformError>,
)
    requires
        call_ensures(service_binary_args, (host, Ok(exe), paths), installed),
        installed matches Ok(line) && line.deep_view() == args.deep_view(),
        call_ensures(service_paths_from_args, (host, args), found),
        valid_utf8(paths@.config_dir),
        valid_utf8(paths@.data_dir),
        valid_utf8(paths@.cache_dir),
    ensures
        found matches Ok(own) && {
            &&& own@.config_dir == paths@.config_dir
            &&& own@.data_dir == paths@.data_dir
            &&& own@.cache_dir == paths@.cache_dir
            &&& own@.cores_dir == joined(host, paths@.cache_dir, encode_utf8("core"@))
            &&& own@.logs_dir == joined(host, paths@.data_dir, encode_utf8("logs"@))
        },
{
    law_service_works_where_it_was_installed(host, exe@, paths@);
}

} // verus!
