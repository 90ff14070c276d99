use zk_shell::help::{help_all, help_full, CmdHelp};
use zk_shell::service::{
    decode, missing_node, not_empty_node, render, report_error, resolve_mode, unknown_error,
    NodeMode, RenderError, Reply, Request, NOT_EMPTY, NO_NODE,
};
use zk_shell::zk::NodeStat;

fn stat() -> NodeStat {
    NodeStat {
        czxid: 1,
        mzxid: 2,
        ctime: 3,
        mtime: 4,
        version: 5,
        cversion: 6,
        aversion: 7,
        ephemeral_owner: 8,
        data_length: 9,
        num_children: 10,
        pzxid: 11,
    }
}

#[test]
fn missing_node_message() {
    assert_eq!(report_error(NO_NODE, "/missing"), "Path /missing does not exist.");
    assert_eq!(missing_node("/missing"), "Path /missing does not exist.");
    assert_eq!(NO_NODE, zookeeper::ZkError::NoNode as i32);
}

#[test]
fn not_empty_message() {
    assert_eq!(report_error(NOT_EMPTY, "/a/b"), "Path /a/b is not empty.");
    assert_eq!(not_empty_node("/a/b"), "Path /a/b is not empty.");
    assert_eq!(NOT_EMPTY, zookeeper::ZkError::NotEmpty as i32);
}

#[test]
fn unknown_error_message_names_the_code() {
    assert_eq!(report_error(-110, "/a"), "Unknown error: NodeExists");
    assert_eq!(report_error(-103, "/a"), "Unknown error: BadVersion");
    assert_eq!(report_error(-4, "/a"), "Unknown error: ConnectionLoss");
    assert_eq!(report_error(-112, "/a"), "Unknown error: SessionExpired");
    assert_eq!(report_error(-102, "/a"), "Unknown error: NoAuth");
    assert_eq!(unknown_error("Anything"), "Unknown error: Anything");
}

#[test]
fn unknown_error_message_for_every_code_of_the_client() {
    let all = [
        zookeeper::ZkError::APIError,
        zookeeper::ZkError::AuthFailed,
        zookeeper::ZkError::BadArguments,
        zookeeper::ZkError::BadVersion,
        zookeeper::ZkError::ConnectionLoss,
        zookeeper::ZkError::DataInconsistency,
        zookeeper::ZkError::EphemeralOnLocalSession,
        zookeeper::ZkError::InvalidACL,
        zookeeper::ZkError::InvalidCallback,
        zookeeper::ZkError::MarshallingError,
        zookeeper::ZkError::NoAuth,
        zookeeper::ZkError::NoChildrenForEphemerals,
        zookeeper::ZkError::NodeExists,
        zookeeper::ZkError::NotReadOnly,
        zookeeper::ZkError::NoWatcher,
        zookeeper::ZkError::OperationTimeout,
        zookeeper::ZkError::RuntimeInconsistency,
        zookeeper::ZkError::SessionExpired,
        zookeeper::ZkError::SessionMoved,
        zookeeper::ZkError::SystemError,
        zookeeper::ZkError::Unimplemented,
    ];
    for e in all {
        assert_eq!(report_error(e as i32, "/p"), format!("Unknown error: {:?}", e));
    }
}

#[test]
fn a_code_the_client_does_not_know() {
    assert_eq!(report_error(12345, "/a"), "Unknown error: Unimplemented");
    assert_eq!(report_error(0, "/a"), "Unknown error: Unimplemented");
}

#[test]
fn data_is_shown_as_text() {
    let reply = Reply::Data(b"hello".to_vec());
    assert_eq!(render("/a", &reply), Ok(vec!["hello".to_string()]));
    let reply = Reply::Data("grüße ✓".as_bytes().to_vec());
    assert_eq!(render("/a", &reply), Ok(vec!["grüße ✓".to_string()]));
    assert_eq!(render("/a", &Reply::Data(Vec::new())), Ok(vec![String::new()]));
}

#[test]
fn data_that_is_not_text_is_an_error() {
    let reply = Reply::Data(vec![0x66, 0xff, 0x6f]);
    assert_eq!(render("/a", &reply), Err(RenderError::InvalidUtf8));
    assert_eq!(decode(&vec![0xc3]), Err(RenderError::InvalidUtf8));
    assert_eq!(decode(&vec![0xed, 0xa0, 0x80]), Err(RenderError::InvalidUtf8));
    assert_eq!(decode(&vec![0xc3, 0xa9]), Ok("é".to_string()));
}

#[test]
fn children_are_joined_by_spaces() {
    let reply = Reply::Children(vec!["x".to_string(), "y".to_string()]);
    assert_eq!(render("/a", &reply), Ok(vec!["x y".to_string()]));
    let reply = Reply::Children(vec!["b".to_string(), "a".to_string(), "c".to_string()]);
    assert_eq!(render("/a", &reply), Ok(vec!["b a c".to_string()]));
    assert_eq!(render("/a", &Reply::Children(Vec::new())), Ok(vec![String::new()]));
}

#[test]
fn stat_is_shown_as_the_client_shows_it() {
    let reply = Reply::Stat(Some(stat()));
    let expected = "Stat { czxid: 1, mzxid: 2, ctime: 3, mtime: 4, version: 5, cversion: 6, \
                    aversion: 7, ephemeral_owner: 8, data_length: 9, num_children: 10, pzxid: 11 }";
    assert_eq!(render("/a", &reply), Ok(vec![expected.to_string()]));
    let same = zookeeper::Stat {
        czxid: 1,
        mzxid: 2,
        ctime: 3,
        mtime: 4,
        version: 5,
        cversion: 6,
        aversion: 7,
        ephemeral_owner: 8,
        data_length: 9,
        num_children: 10,
        pzxid: 11,
    };
    assert_eq!(expected, format!("{:?}", same));
}

#[test]
fn stat_of_a_missing_node() {
    assert_eq!(
        render("/gone", &Reply::Stat(None)),
        Ok(vec!["Path /gone does not exist.".to_string()])
    );
}

#[test]
fn success_without_output() {
    assert_eq!(render("/a", &Reply::Done), Ok(Vec::new()));
}

#[test]
fn failures_are_rendered_through_the_error_mapping() {
    assert_eq!(
        render("/missing", &Reply::Failed(NO_NODE)),
        Ok(vec!["Path /missing does not exist.".to_string()])
    );
    assert_eq!(
        render("/full", &Reply::Failed(NOT_EMPTY)),
        Ok(vec!["Path /full is not empty.".to_string()])
    );
    assert_eq!(
        render("/a", &Reply::Failed(-110)),
        Ok(vec!["Unknown error: NodeExists".to_string()])
    );
}

#[test]
fn modes_of_create() {
    assert_eq!(resolve_mode(false, false), NodeMode::Persistent);
    assert_eq!(resolve_mode(true, false), NodeMode::Ephemeral);
    assert_eq!(resolve_mode(false, true), NodeMode::PersistentSequential);
    assert_eq!(resolve_mode(true, true), NodeMode::EphemeralSequential);
}

#[test]
fn request_paths() {
    let r = Request::GetData { path: "/g".to_string(), watch: true };
    assert_eq!(r.path(), "/g");
    let r = Request::Delete { path: "/d".to_string(), version: 3 };
    assert_eq!(r.path(), "/d");
    let r = Request::Create {
        path: "/c".to_string(),
        data: Vec::new(),
        acl: Vec::new(),
        mode: NodeMode::Persistent,
    };
    assert_eq!(r.path(), "/c");
}

#[test]
fn help_entry_texts() {
    let e = CmdHelp::new("get", "Gets the znode's value", "<path> [watch]", "", "");
    assert_eq!(e.name, "get");
    assert_eq!(e.desc, "Gets the znode's value");
    assert_eq!(e.synopsis, "<path> [watch]");
    assert_eq!(e.options, "");
    assert_eq!(e.examples, "");
    assert_eq!(e.name_desc(), "get - Gets the znode's value");
    assert_eq!(e.synopsis_string(), "get <path> [watch]");
    assert_eq!(e.summary(), "\x1b[1;37mget\x1b[0m - <path> [watch]");
}

#[test]
fn help_page() {
    let e = CmdHelp::new("rm", "Delete a znode", "<path> [version]", "none", "rm /a 3");
    let expected = "\x1b[1;37mNAME\x1b[0m\n\trm - Delete a znode\n\n\
                    \x1b[1;37mSYNOPSIS\x1b[0m\n\trm <path> [version]\n\n\
                    \x1b[1;37mOPTIONS\x1b[0m\n\tnone\n\n\
                    \x1b[1;37mEXAMPLES\x1b[0m\n\trm /a 3\n";
    assert_eq!(e.full(), expected);
    let b = ansi_term::Colour::White.bold();
    let through_the_crate = format!(
        "{}\n\t{}\n\n{}\n\t{}\n\n{}\n\t{}\n\n{}\n\t{}\n",
        b.paint("NAME"),
        e.name_desc(),
        b.paint("SYNOPSIS"),
        e.synopsis_string(),
        b.paint("OPTIONS"),
        e.options,
        b.paint("EXAMPLES"),
        e.examples
    );
    assert_eq!(e.full(), through_the_crate);
}

#[test]
fn help_registry() {
    let e = CmdHelp::lookup("connect").unwrap();
    assert_eq!(e.name, "connect");
    assert_eq!(e.desc, "Connects to one of the given hosts, creating a session");
    assert_eq!(e.synopsis, "<hosts>");
    let e = CmdHelp::lookup("disconnect").unwrap();
    assert_eq!(e.desc, "Disconnects from the server (closing the session)");
    assert_eq!(e.synopsis, "");
    assert_eq!(CmdHelp::lookup("set").unwrap().desc, "Sets the znode's value");
    assert_eq!(CmdHelp::lookup("ls").unwrap().desc, "Lists a znode's children");
    assert_eq!(CmdHelp::lookup("create").unwrap().desc, "Creates a znode with the given value");
    assert_eq!(CmdHelp::lookup("exists").unwrap().desc, "Gets the znode's stat information");
    assert_eq!(CmdHelp::lookup("help"), None);
    assert_eq!(CmdHelp::lookup("man"), None);
    assert_eq!(CmdHelp::lookup("nope"), None);
}

#[test]
fn help_listing_is_sorted_by_name() {
    let lines = help_all();
    let expected = vec![
        "\x1b[1;37mconnect\x1b[0m - <hosts>",
        "\x1b[1;37mcreate\x1b[0m - <path> <data> [ephemeral] [sequential]",
        "\x1b[1;37mdisconnect\x1b[0m - ",
        "\x1b[1;37mexists\x1b[0m - <path> [watch]",
        "\x1b[1;37mget\x1b[0m - <path> [watch]",
        "\x1b[1;37mls\x1b[0m - <path> [watch]",
        "\x1b[1;37mrm\x1b[0m - <path> [version]",
        "\x1b[1;37mset\x1b[0m - <path> <data> [version]",
    ];
    assert_eq!(lines, expected);
}

#[test]
fn help_for_one_command() {
    let page = help_full("get");
    assert_eq!(
        page,
        "\x1b[1;37mNAME\x1b[0m\n\tget - Gets the znode's value\n\n\
         \x1b[1;37mSYNOPSIS\x1b[0m\n\tget <path> [watch]\n\n\
         \x1b[1;37mOPTIONS\x1b[0m\n\t\n\n\
         \x1b[1;37mEXAMPLES\x1b[0m\n\t\n"
    );
    assert_eq!(help_full("frob"), "Unknown command: frob.");
    assert_eq!(help_full("help"), "Unknown command: help.");
}

#[test]
fn render_error_message() {
    assert_eq!(RenderError::InvalidUtf8.message(), "Data is not valid UTF-8.");
}

#[test]
fn help_listing_has_every_registered_name_in_order() {
    let mut names = vec!["get", "set", "ls", "create", "rm", "exists", "disconnect", "connect"];
    names.sort();
    let lines = help_all();
    assert_eq!(lines.len(), names.len());
    for (line, name) in lines.iter().zip(names) {
        let entry = CmdHelp::lookup(name).unwrap();
        let bold = ansi_term::Colour::White.bold().paint(name);
        assert_eq!(*line, format!("{} - {}", bold, entry.synopsis));
    }
}
