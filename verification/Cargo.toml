[package]
name = "web_canvas"
version = "0.1.0"
edition = "2021"
publish = false

[dependencies]
smol_str = "=0.2.2"
wasm-bindgen = "=0.2.130"

[dependencies.web-sys]
version = "=0.3.107"
features = [
    "ClipboardEvent",
    "CompositionEvent",
    "CssStyleDeclaration",
    "DataTransfer",
    "Document",
    "DomRect",
    "Element",
    "Event",
    "EventTarget",
    "FocusEvent",
    "HtmlCanvasElement",
    "HtmlElement",
    "HtmlInputElement",
    "HtmlTextAreaElement",
    "InputEvent",
    "KeyboardEvent",
    "MouseEvent",
    "Node",
    "PointerEvent",
    "UiEvent",
    "WheelEvent",
    "Window",
]
