[package]
name = "xr_session"
version = "0.1.0"
edition = "2021"
publish = false

[dependencies]
openxr = { version = "=0.22.0", default-features = false, features = ["loaded"] }
glam = "=0.30.10"
glow = "=0.18.0"
glutin = "=0.29.1"
winit = "=0.27.5"
winapi = { version = "=0.3.9", features = ["windef", "winuser"] }
wasm-bindgen = "=0.2.129"
wasm-bindgen-futures = "=0.4.79"
web-sys = { version = "=0.3.106", features = ["Window", "Document", "Element", "HtmlElement", "Node", "HtmlCanvasElement", "Navigator", "WebGl2RenderingContext", "WebGlFramebuffer", "XrSystem", "XrSession", "XrSessionMode", "XrSessionInit", "XrWebGlLayer", "XrRenderStateInit", "XrRenderState", "XrReferenceSpace", "XrReferenceSpaceType", "XrFrame", "XrView", "XrViewerPose", "XrViewport", "XrRigidTransform", "XrInputSource", "XrInputSourceArray", "XrHandedness", "XrSpace", "XrPose"] }
futures-executor = "=0.3.34"
futures-util = "=0.3.34"
console_error_panic_hook = "=0.1.7"
