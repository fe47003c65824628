use kaminari::nop::{NopAccept, NopConnect};
use kaminari::trick::Ref;
use kaminari::uot::{UotAccept, UotConnect};
use kaminari::ws::{Mode, Fixed, Simple, Standard, WsAccept, WsConf, WsConnect};
use kaminari::{AsyncAccept, AsyncConnect, Layered, MaskMode, Raw};

// A transport that only knows its number.
fn wire(n: u32) -> Raw<u32> {
    Raw(n)
}

fn conf() -> WsConf {
    WsConf { host: String::from("example.com"), path: String::from("/chat"), mask_mode: MaskMode::Skip }
}

#[test]
fn nop_hands_the_stream_back() {
    assert_eq!(NopConnect {}.connect(wire(7)), wire(7));
    assert_eq!(NopAccept {}.accept(wire(8)), wire(8));
    assert_eq!(NopConnect {}.to_string(), "[plain]");
    assert_eq!(NopAccept {}.to_string(), "[plain]");
}

#[test]
fn ws_connect_carries_host_and_path() {
    let stream = WsConnect::new(NopConnect {}, conf()).connect(wire(1));
    assert_eq!(stream.io, wire(1));
    assert_eq!(stream.host, "example.com");
    assert_eq!(stream.path, "/chat");
}

#[test]
fn ws_accept_carries_host_and_path() {
    let stream = WsAccept::new(NopAccept {}, conf()).accept(wire(2));
    assert_eq!(stream.io, wire(2));
    assert_eq!(stream.host, "example.com");
    assert_eq!(stream.path, "/chat");
}

#[test]
fn masking_is_fixed_by_the_type() {
    assert_eq!(Simple::mask_mode(), MaskMode::Skip);
    assert_eq!(Standard::mask_mode(), MaskMode::Standard);
    assert_eq!(Fixed::mask_mode(), MaskMode::Fixed);
    let standard: WsConnect<NopConnect, Standard> = WsConnect::new(NopConnect {}, conf()).standard();
    let fixed: WsConnect<NopConnect, Fixed> = WsConnect::new(NopConnect {}, conf()).fixed();
    assert_eq!(standard.connect(wire(3)).path, "/chat");
    assert_eq!(fixed.connect(wire(4)).host, "example.com");
}

#[test]
fn ws_conf_prints_host_and_path() {
    assert_eq!(conf().to_string(), "host: example.com, path: /chat");
}

#[test]
fn uot_wraps_the_layer_below() {
    let conn = UotConnect::new(WsConnect::new(NopConnect {}, conf()));
    let stream = conn.connect(wire(5));
    assert_eq!(stream.io.io, wire(5));
    assert_eq!(conn.to_string(), "[uot][ws][plain]");
    let lis = UotAccept::new(NopAccept {});
    assert_eq!(lis.accept(wire(6)).io, wire(6));
    assert_eq!(lis.to_string(), "[uot][plain]");
}

#[test]
fn a_handle_acts_as_its_stack() {
    let stack = WsAccept::new(NopAccept {}, conf());
    let handle = Ref::new(&stack);
    let copy = handle;
    assert_eq!(handle.accept(wire(9)).io, wire(9));
    assert_eq!(copy.accept(wire(10)).path, "/chat");
    assert_eq!(copy.to_string(), "[ws][plain]");
    assert_eq!((*handle).to_string(), "[ws][plain]");
    assert!(std::ptr::eq(handle.as_ref(), &stack));
    let converted: Ref<'_, WsAccept<NopAccept>> = Ref::from(&stack);
    assert!(std::ptr::eq(converted.as_ref(), &stack));
    let client = WsConnect::new(NopConnect {}, conf());
    assert_eq!(Ref::new(&client).clone().connect(wire(11)).io, wire(11));
}
