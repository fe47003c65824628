use kaminari::opt::{
    get_opt, get_tls_client_conf, get_tls_server_conf, get_ws_conf, has_opt,
    tls_client_conf_error, tls_server_conf_error, try_get_tls_client_conf,
    try_get_tls_server_conf, try_get_ws_conf, ws_conf_error, OptError,
};
use kaminari::text::{
    bool_str, chars_of, equals, find, split_ranges, starts_with, trim_range, whitespace,
};
use kaminari::tls::{TlsClientConf, TlsServerConf};
use kaminari::ws::WsConf;
use kaminari::MaskMode;

// What the two lookups mean, written with std's string functions.
fn model_has(s: &str, name: &str) -> bool {
    s.split(';').map(|x| x.trim()).any(|kv| kv == name)
}

fn model_get(s: &str, name: &str) -> Option<String> {
    s.split(';')
        .map(|x| x.trim())
        .find(|kv| kv.starts_with(name))
        .and_then(|kv| kv.split_once('='))
        .map(|(_, v)| v.trim())
        .and_then(|v| if v.is_empty() { None } else { Some(v.to_string()) })
}

fn samples() -> Vec<&'static str> {
    vec![
        "",
        ";",
        ";;",
        "ws",
        "ws;host=example.com;path=/chat",
        " ws ; host = example.com ; path = /chat ",
        "ws;hostname=first;host=second;path=/",
        "ws;host;host=later;path=/",
        "ws;host=;path=/",
        "ws;host=a=b;path==",
        "ws;host=\u{3000}wide\u{a0};path=\t/p\n",
        "tls;sni=example.com;alpn=h2, http/1.1,, ;insecure;0rtt",
        "tls;sni=example.com;alpn=",
        "tls;sni=example.com;alpn=,",
        "tls ;sni= ex ample ;insecure ",
        "tlsx;sni=a",
        "tls;cert=/etc/c.pem;key=/etc/k.pem;ocsp=/etc/o.der",
        "tls;servername=example.com",
        "tls;key=/etc/k.pem",
        "uot",
        "ws;tls;host=h;path=/p;sni=s;uot",
        "=;=a;a=;ws=1",
        "h\u{e9}llo;host=d\u{f6}main;path=/\u{4e2d}\u{6587}",
    ]
}

#[test]
fn lookups_agree_with_std() {
    let names = ["ws", "tls", "host", "path", "sni", "alpn", "insecure", "0rtt", "", "=", "h", "uot"];
    for s in samples() {
        for name in names {
            assert_eq!(has_opt(s, name), model_has(s, name), "has {s:?} {name:?}");
            assert_eq!(get_opt(s, name), model_get(s, name), "get {s:?} {name:?}");
        }
    }
}

#[test]
fn whitespace_agrees_with_std() {
    for code in 0u32..=0x10ffff {
        if let Some(c) = char::from_u32(code) {
            assert_eq!(whitespace(c), c.is_whitespace(), "U+{code:04X}");
        }
    }
}

#[test]
fn chars_of_gives_every_character() {
    assert_eq!(chars_of(""), Vec::<char>::new());
    assert_eq!(chars_of("a\u{e9}\u{4e2d}z"), vec!['a', '\u{e9}', '\u{4e2d}', 'z']);
}

#[test]
fn find_gives_first_place_or_end() {
    let chars = chars_of("a;b;c");
    assert_eq!(find(&chars, 0, 5, ';'), 1);
    assert_eq!(find(&chars, 2, 5, ';'), 3);
    assert_eq!(find(&chars, 4, 5, ';'), 5);
    assert_eq!(find(&chars, 2, 2, ';'), 2);
}

#[test]
fn split_keeps_empty_pieces() {
    let chars = chars_of(";a;;b;");
    assert_eq!(split_ranges(&chars, 0, chars.len(), ';'), vec![(0, 0), (1, 2), (3, 3), (4, 5), (6, 6)]);
    let none = chars_of("");
    assert_eq!(split_ranges(&none, 0, 0, ';'), vec![(0, 0)]);
}

#[test]
fn trim_takes_both_ends() {
    let chars = chars_of(" \t a b \u{3000}");
    assert_eq!(trim_range(&chars, 0, chars.len()), (3, 6));
    let blank = chars_of("   ");
    let (from, to) = trim_range(&blank, 0, 3);
    assert_eq!(from, to);
}

#[test]
fn prefixes_and_whole_texts_are_told_apart() {
    let chars = chars_of("host=a");
    let host = chars_of("host");
    assert!(starts_with(&chars, 0, 6, &host));
    assert!(starts_with(&chars, 0, 4, &host));
    assert!(!starts_with(&chars, 0, 3, &host));
    assert!(!starts_with(&chars, 1, 6, &host));
    assert!(starts_with(&chars, 2, 2, &chars_of("")));
    assert!(equals(&chars, 0, 4, &host));
    assert!(!equals(&chars, 0, 5, &host));
    assert!(!equals(&chars, 0, 3, &host));
    assert_eq!(bool_str(true), "true");
    assert_eq!(bool_str(false), "false");
}

#[test]
fn ws_conf_is_none_without_flag() {
    assert_eq!(try_get_ws_conf("host=a;path=/"), Ok(None));
    assert_eq!(try_get_ws_conf(""), Ok(None));
    assert_eq!(try_get_ws_conf("wss;host=a;path=/"), Ok(None));
}

#[test]
fn ws_conf_takes_host_and_path() {
    let expected = WsConf {
        host: String::from("example.com"),
        path: String::from("/chat"),
        mask_mode: MaskMode::Skip,
    };
    assert_eq!(try_get_ws_conf("ws;host=example.com;path=/chat"), Ok(Some(expected.clone())));
    assert_eq!(try_get_ws_conf(" path = /chat ;ws; host = example.com "), Ok(Some(expected)));
}

#[test]
fn ws_conf_takes_first_item_with_the_prefix() {
    let conf = try_get_ws_conf("ws;hostname=first;host=second;path=/").unwrap().unwrap();
    assert_eq!(conf.host, "first");
}

#[test]
fn ws_conf_requires_host_and_path() {
    assert_eq!(try_get_ws_conf("ws"), Err(OptError::WsRequiresHostAndPath));
    assert_eq!(try_get_ws_conf("ws;host=a"), Err(OptError::WsRequiresHostAndPath));
    assert_eq!(try_get_ws_conf("ws;path=/"), Err(OptError::WsRequiresHostAndPath));
    assert_eq!(try_get_ws_conf("ws;host=;path=/"), Err(OptError::WsRequiresHostAndPath));
    assert_eq!(try_get_ws_conf("ws;host;host=a;path=/"), Err(OptError::WsRequiresHostAndPath));
}

#[test]
fn tls_client_conf_is_none_without_flag() {
    assert_eq!(try_get_tls_client_conf("sni=a"), Ok(None));
}

#[test]
fn tls_client_conf_takes_all_settings() {
    let expected = TlsClientConf {
        sni: String::from("example.com"),
        alpn: vec![Vec::from("h2"), Vec::from("http/1.1")],
        insecure: true,
        early_data: true,
    };
    assert_eq!(
        try_get_tls_client_conf("tls;sni=example.com;alpn=h2, http/1.1,, ;insecure;0rtt"),
        Ok(Some(expected))
    );
}

#[test]
fn tls_client_conf_defaults() {
    let expected = TlsClientConf {
        sni: String::from("a"),
        alpn: Vec::new(),
        insecure: false,
        early_data: false,
    };
    assert_eq!(try_get_tls_client_conf("tls;sni=a"), Ok(Some(expected.clone())));
    assert_eq!(try_get_tls_client_conf("tls;sni=a;alpn= , ,"), Ok(Some(expected)));
}

#[test]
fn tls_client_conf_keeps_bytes_of_names() {
    let conf = try_get_tls_client_conf("tls;sni=a;alpn=h\u{e9}").unwrap().unwrap();
    assert_eq!(conf.alpn, vec![vec![b'h', 0xc3, 0xa9]]);
}

#[test]
fn tls_client_conf_requires_sni() {
    assert_eq!(try_get_tls_client_conf("tls"), Err(OptError::TlsRequiresSni));
    assert_eq!(try_get_tls_client_conf("tls;sni="), Err(OptError::TlsRequiresSni));
    assert_eq!(try_get_tls_client_conf("tls;alpn=h2;insecure"), Err(OptError::TlsRequiresSni));
}

#[test]
fn tls_server_conf_takes_files_or_name() {
    assert_eq!(try_get_tls_server_conf("cert=a;key=b"), Ok(None));
    assert_eq!(
        try_get_tls_server_conf("tls;cert=/c.pem;key=/k.pem;ocsp=/o.der"),
        Ok(Some(TlsServerConf {
            crt: String::from("/c.pem"),
            key: String::from("/k.pem"),
            ocsp: String::from("/o.der"),
            server_name: String::new(),
        }))
    );
    assert_eq!(
        try_get_tls_server_conf("tls;servername=example.com"),
        Ok(Some(TlsServerConf {
            crt: String::new(),
            key: String::new(),
            ocsp: String::new(),
            server_name: String::from("example.com"),
        }))
    );
}

#[test]
fn tls_server_conf_requires_credentials() {
    assert_eq!(try_get_tls_server_conf("tls"), Err(OptError::TlsRequiresCredentials));
    assert_eq!(try_get_tls_server_conf("tls;key=/k.pem"), Err(OptError::TlsRequiresCredentials));
    assert_eq!(try_get_tls_server_conf("tls;cert=/c.pem;ocsp=/o"), Err(OptError::TlsRequiresCredentials));
}

#[test]
fn complete_option_strings_give_their_configuration_at_once() {
    for s in samples() {
        assert_eq!(ws_conf_error(s), try_get_ws_conf(s).err(), "{s:?}");
        if ws_conf_error(s).is_none() {
            assert_eq!(Ok(get_ws_conf(s)), try_get_ws_conf(s), "{s:?}");
        }
        assert_eq!(tls_client_conf_error(s), try_get_tls_client_conf(s).err(), "{s:?}");
        if tls_client_conf_error(s).is_none() {
            assert_eq!(Ok(get_tls_client_conf(s)), try_get_tls_client_conf(s), "{s:?}");
        }
        assert_eq!(tls_server_conf_error(s), try_get_tls_server_conf(s).err(), "{s:?}");
        if tls_server_conf_error(s).is_none() {
            assert_eq!(Ok(get_tls_server_conf(s)), try_get_tls_server_conf(s), "{s:?}");
        }
    }
    assert_eq!(get_ws_conf("ws;host=h;path=/p").unwrap().path, "/p");
    assert_eq!(get_tls_client_conf("tls;sni=s").unwrap().sni, "s");
    assert_eq!(get_tls_server_conf("tls;servername=n").unwrap().server_name, "n");
    assert_eq!(ws_conf_error("ws;host=h"), Some(OptError::WsRequiresHostAndPath));
    assert_eq!(tls_client_conf_error("tls"), Some(OptError::TlsRequiresSni));
    assert_eq!(tls_server_conf_error("tls;cert=c"), Some(OptError::TlsRequiresCredentials));
}
