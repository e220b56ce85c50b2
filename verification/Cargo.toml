[package]
name = "voicetastic_web"
version = "0.1.0"
edition = "2021"
publish = false

[dependencies]
codec2 = "*"
getrandom = "*"
js-sys = "*"
prost = "*"
serde = { version = "1", features = ["derive"] }
serde-wasm-bindgen = "*"
wasm-bindgen = "*"
wasm-bindgen-futures = "*"
web-sys = { version = "*", features = ["console", "Bluetooth", "BluetoothDevice", "BluetoothRemoteGattCharacteristic", "BluetoothRemoteGattServer", "BluetoothRemoteGattService", "Event", "EventTarget", "Navigator", "ReadableStream", "ReadableStreamDefaultReader", "RequestDeviceOptions", "Serial", "SerialOptions", "SerialPort", "Window", "WritableStream", "WritableStreamDefaultWriter"] }
web-time = "*"
