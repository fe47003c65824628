use kaminari::mix::{
    MixAccept, MixClientConf, MixClientStream, MixConnect, MixServerConf, MixServerStream,
};
use kaminari::tls::{
    CredentialCache, CredentialFiles, TlsClientConf, TlsError, TlsServerConf, Verifiers,
};
use kaminari::ws::WsConf;
use kaminari::{AsyncAccept, AsyncConnect, Layered, MaskMode, Raw};

fn no_files() -> CredentialFiles {
    CredentialFiles { crt: Vec::new(), key: Vec::new(), ocsp: Vec::new() }
}

fn ws(mask_mode: MaskMode) -> Option<WsConf> {
    Some(WsConf { host: String::from("abc"), path: String::from("chat"), mask_mode })
}

fn tls_client() -> Option<TlsClientConf> {
    Some(TlsClientConf {
        sni: String::from("abc"),
        alpn: vec![Vec::from("h2"), Vec::from("http/1.1")],
        insecure: true,
        early_data: true,
    })
}

fn tls_server() -> Option<TlsServerConf> {
    Some(TlsServerConf {
        crt: String::new(),
        key: String::new(),
        ocsp: String::new(),
        server_name: String::from("abc"),
    })
}

#[test]
fn print_conn() {
    let conf = MixClientConf { ws: ws(MaskMode::Skip), tls: tls_client() };

    println!("ws: {}", conf.clone().ws.unwrap().to_string());
    println!("tls: {}", conf.clone().tls.unwrap().to_string());

    let conn = MixConnect::new(conf);

    println!("{}", conn.to_string());
    assert_eq!(conn.to_string(), "[ws][tls][plain]");
}

#[test]
fn print_lis() {
    let conf = MixServerConf { ws: ws(MaskMode::Skip), tls: tls_server() };

    println!("ws: {}", conf.clone().ws.unwrap().to_string());
    println!("tls: {}", conf.clone().tls.unwrap().to_string());

    let lis = MixAccept::new(conf, &no_files()).unwrap();

    println!("{}", lis.to_string());
    assert_eq!(lis.to_string(), "[ws][tls][plain]");
}

// The name of the variant that a client stack is.
fn client_name(stack: &MixConnect) -> &'static str {
    match stack {
        MixConnect::Plain(_) => "Plain",
        MixConnect::Ws(_) => "Ws",
        MixConnect::WsFixed(_) => "WsFixed",
        MixConnect::WsStandard(_) => "WsStandard",
        MixConnect::Tls(_) => "Tls",
        MixConnect::Wss(_) => "Wss",
        MixConnect::WssFixed(_) => "WssFixed",
        MixConnect::WssStandard(_) => "WssStandard",
    }
}

fn client_stream_name<T>(stream: &MixClientStream<T>) -> &'static str {
    match stream {
        MixClientStream::Plain(_) => "Plain",
        MixClientStream::Ws(_) => "Ws",
        MixClientStream::WsFixed(_) => "WsFixed",
        MixClientStream::WsStandard(_) => "WsStandard",
        MixClientStream::Tls(_) => "Tls",
        MixClientStream::Wss(_) => "Wss",
        MixClientStream::WssFixed(_) => "WssFixed",
        MixClientStream::WssStandard(_) => "WssStandard",
    }
}

fn server_name(stack: &MixAccept) -> &'static str {
    match stack {
        MixAccept::Plain(_) => "Plain",
        MixAccept::Ws(_) => "Ws",
        MixAccept::Tls(_) => "Tls",
        MixAccept::Wss(_) => "Wss",
    }
}

fn server_stream_name<T>(stream: &MixServerStream<T>) -> &'static str {
    match stream {
        MixServerStream::Plain(_) => "Plain",
        MixServerStream::Ws(_) => "Ws",
        MixServerStream::Tls(_) => "Tls",
        MixServerStream::Wss(_) => "Wss",
    }
}

fn client_table() -> Vec<(Option<WsConf>, Option<TlsClientConf>, &'static str, &'static str)> {
    vec![
        (None, None, "Plain", "[plain]"),
        (ws(MaskMode::Skip), None, "Ws", "[ws][plain]"),
        (ws(MaskMode::Fixed), None, "WsFixed", "[ws][plain]"),
        (ws(MaskMode::Standard), None, "WsStandard", "[ws][plain]"),
        (None, tls_client(), "Tls", "[tls][plain]"),
        (ws(MaskMode::Skip), tls_client(), "Wss", "[ws][tls][plain]"),
        (ws(MaskMode::Fixed), tls_client(), "WssFixed", "[ws][tls][plain]"),
        (ws(MaskMode::Standard), tls_client(), "WssStandard", "[ws][tls][plain]"),
    ]
}

#[test]
fn client_selection_follows_the_table() {
    for (ws, tls, name, text) in client_table() {
        let stack = MixConnect::new(MixClientConf { ws, tls });
        assert_eq!(client_name(&stack), name);
        assert_eq!(stack.to_string(), text);
        assert_eq!(client_stream_name(&stack.connect(Raw(0u8))), name);
    }
}

#[test]
fn shared_client_selection_follows_the_table() {
    let shared = Verifiers::new().unwrap();
    for (ws, tls, name, text) in client_table() {
        let stack = MixConnect::new_shared(MixClientConf { ws, tls }, &shared);
        assert_eq!(client_name(&stack), name);
        assert_eq!(stack.to_string(), text);
        assert_eq!(client_stream_name(&stack.clone().connect(Raw(0u8))), name);
    }
}

fn server_table() -> Vec<(Option<WsConf>, Option<TlsServerConf>, &'static str, &'static str)> {
    vec![
        (None, None, "Plain", "[plain]"),
        (ws(MaskMode::Skip), None, "Ws", "[ws][plain]"),
        (None, tls_server(), "Tls", "[tls][plain]"),
        (ws(MaskMode::Standard), tls_server(), "Wss", "[ws][tls][plain]"),
    ]
}

#[test]
fn server_selection_follows_the_table() {
    for (ws, tls, name, text) in server_table() {
        let stack = MixAccept::new(MixServerConf { ws, tls }, &no_files()).unwrap();
        assert_eq!(server_name(&stack), name);
        assert_eq!(stack.to_string(), text);
        assert_eq!(server_stream_name(&stack.accept(Raw(0u8))), name);
    }
}

#[test]
fn shared_server_selection_follows_the_table() {
    let mut cache = CredentialCache::new();
    for (ws, tls, name, text) in server_table() {
        let conf = MixServerConf { ws, tls };
        let stack = MixAccept::new_shared(conf, &no_files(), &mut cache).unwrap();
        assert_eq!(server_name(&stack), name);
        assert_eq!(stack.to_string(), text);
        assert_eq!(server_stream_name(&stack.clone().accept(Raw(0u8))), name);
    }
    assert_eq!(cache.len(), (1, 0));
}

#[test]
fn matching_stacks_have_matching_layers() {
    for mask in [MaskMode::Skip, MaskMode::Fixed, MaskMode::Standard] {
        for (with_ws, with_tls) in [(false, false), (true, false), (false, true), (true, true)] {
            let client = MixClientConf {
                ws: if with_ws { ws(mask) } else { None },
                tls: if with_tls { tls_client() } else { None },
            };
            let server = MixServerConf {
                ws: if with_ws { ws(MaskMode::Skip) } else { None },
                tls: if with_tls { tls_server() } else { None },
            };
            let connect = MixConnect::new(client);
            let accept = MixAccept::new(server, &no_files()).unwrap();
            assert_eq!(connect.to_string(), accept.to_string());
        }
    }
}

#[test]
fn casts_give_the_layer_of_their_variant_only() {
    let plain = MixConnect::new(MixClientConf { ws: None, tls: None });
    assert!(plain.as_plain().is_some());
    assert!(plain.as_ws().is_none() && plain.as_tls().is_none() && plain.as_wss().is_none());
    let ws_only = MixConnect::new(MixClientConf { ws: ws(MaskMode::Skip), tls: None });
    assert!(ws_only.as_ws().is_some());
    assert!(ws_only.as_plain().is_none() && ws_only.as_wss().is_none());
    let fixed = MixConnect::new(MixClientConf { ws: ws(MaskMode::Fixed), tls: None });
    assert!(fixed.as_ws().is_none());
    let tls = MixConnect::new(MixClientConf { ws: None, tls: tls_client() });
    assert!(tls.as_tls().is_some() && tls.as_wss().is_none());
    let wss = MixConnect::new(MixClientConf { ws: ws(MaskMode::Skip), tls: tls_client() });
    assert!(wss.as_wss().is_some() && wss.as_tls().is_none() && wss.as_ws().is_none());

    let lis = MixAccept::new(MixServerConf { ws: None, tls: None }, &no_files()).unwrap();
    assert!(lis.as_plain().is_some() && lis.as_ws().is_none());
    let lis = MixAccept::new(MixServerConf { ws: ws(MaskMode::Skip), tls: None }, &no_files()).unwrap();
    assert!(lis.as_ws().is_some() && lis.as_wss().is_none());
    let lis = MixAccept::new(MixServerConf { ws: None, tls: tls_server() }, &no_files()).unwrap();
    assert!(lis.as_tls().is_some() && lis.as_plain().is_none());
    let lis =
        MixAccept::new(MixServerConf { ws: ws(MaskMode::Skip), tls: tls_server() }, &no_files())
            .unwrap();
    assert!(lis.as_wss().is_some() && lis.as_tls().is_none());
}

#[test]
fn the_stream_holds_what_was_configured() {
    let stack = MixConnect::new(MixClientConf { ws: ws(MaskMode::Standard), tls: None });
    match stack.connect(Raw(42u8)) {
        MixClientStream::WsStandard(stream) => {
            assert_eq!(stream.io, Raw(42u8));
            assert_eq!(stream.host, "abc");
            assert_eq!(stream.path, "chat");
        }
        other => panic!("selected {}", client_stream_name(&other)),
    }
    let stack = MixConnect::new(MixClientConf { ws: None, tls: None });
    match stack.connect(Raw(43u8)) {
        MixClientStream::Plain(stream) => assert_eq!(stream, Raw(43u8)),
        other => panic!("selected {}", client_stream_name(&other)),
    }
    let stack = MixAccept::new(MixServerConf { ws: ws(MaskMode::Skip), tls: tls_server() }, &no_files())
        .unwrap();
    match stack.accept(Raw(44u8)) {
        MixServerStream::Wss(stream) => {
            assert_eq!(stream.io.io, Raw(44u8));
            assert_eq!(stream.path, "chat");
        }
        other => panic!("selected {}", server_stream_name(&other)),
    }
}

#[test]
fn a_bad_server_name_gives_no_stack() {
    let tls = Some(TlsClientConf {
        sni: String::from("not a name"),
        alpn: Vec::new(),
        insecure: false,
        early_data: false,
    });
    let conf = MixClientConf { ws: ws(MaskMode::Skip), tls: tls.clone() };
    assert!(!MixConnect::can_make(&conf));
    let r = MixConnect::try_new(conf);
    assert_eq!(r.err(), Some(TlsError::InvalidServerName));
    let shared = Verifiers::new().unwrap();
    let r = MixConnect::try_new_shared(MixClientConf { ws: None, tls }, &shared);
    assert_eq!(r.err(), Some(TlsError::InvalidServerName));
    for (ws, tls, name, _) in client_table() {
        let conf = MixClientConf { ws, tls };
        assert!(MixConnect::can_make(&conf));
        assert_eq!(client_name(&MixConnect::try_new(conf.clone()).unwrap()), name);
        assert_eq!(client_name(&MixConnect::try_new_shared(conf, &shared).unwrap()), name);
    }
}

#[test]
fn a_server_without_credentials_gives_no_stack() {
    let tls = Some(TlsServerConf {
        crt: String::from("only.crt"),
        key: String::new(),
        ocsp: String::new(),
        server_name: String::new(),
    });
    let conf = MixServerConf { ws: None, tls: tls.clone() };
    assert!(!MixAccept::can_make(&conf));
    let r = MixAccept::try_new(conf, &no_files());
    assert_eq!(r.err(), Some(TlsError::NoCredentials));
    let mut cache = CredentialCache::new();
    let conf = MixServerConf { ws: ws(MaskMode::Skip), tls };
    let r = MixAccept::try_new_shared(conf, &no_files(), &mut cache);
    assert_eq!(r.err(), Some(TlsError::NoCredentials));
    assert_eq!(cache.len(), (0, 0));
    for (ws, tls, name, _) in server_table() {
        let conf = MixServerConf { ws, tls };
        assert!(MixAccept::can_make(&conf));
        assert_eq!(server_name(&MixAccept::try_new(conf.clone(), &no_files()).unwrap()), name);
        let made = MixAccept::try_new_shared(conf, &no_files(), &mut cache).unwrap();
        assert_eq!(server_name(&made), name);
    }
}
