use chaser_oxide::stealth::{
    append_decimal, default_client_hints_brands, default_client_hints_platform, LinuxProfile,
    MacOSProfile, StealthProfile, WindowsNvidiaProfile,
};

fn expected_script(p: &dyn StealthProfile) -> String {
    let brands = p
        .client_hints_brands()
        .iter()
        .map(|(b, v)| format!(r#"{{ brand: "{}", version: "{}" }}"#, b, v))
        .collect::<Vec<_>>()
        .join(", ");
    format!(
        r#"
            // === chaser-oxide HARDWARE HARMONY ===
            // Profile: {ua}

            // 1. Platform alignment (on prototype to avoid getOwnPropertyNames detection)
            Object.defineProperty(Navigator.prototype, 'platform', {{
                get: () => '{platform}',
                configurable: true
            }});

            // 2. Hardware specs (on prototype)
            Object.defineProperty(Navigator.prototype, 'hardwareConcurrency', {{
                get: () => {cores},
                configurable: true
            }});
            Object.defineProperty(Navigator.prototype, 'deviceMemory', {{
                get: () => {memory},
                configurable: true
            }});

            // 3. WebGL spoofing (both contexts)
            const spoofWebGL = (proto) => {{
                const getParameter = proto.getParameter;
                proto.getParameter = function(parameter) {{
                    if (parameter === 37445) return '{webgl_vendor}';
                    if (parameter === 37446) return '{webgl_renderer}';
                    return getParameter.apply(this, arguments);
                }};
            }};
            spoofWebGL(WebGLRenderingContext.prototype);
            if (typeof WebGL2RenderingContext !== 'undefined') {{
                spoofWebGL(WebGL2RenderingContext.prototype);
            }}

            // 4. Client Hints (on prototype)
            Object.defineProperty(Navigator.prototype, 'userAgentData', {{
                get: () => ({{
                    brands: [{brands}],
                    mobile: false,
                    platform: "{hints_platform}"
                }}),
                configurable: true
            }});

            // 5. Video codecs (H.264/AAC)
            const canPlayType = HTMLMediaElement.prototype.canPlayType;
            HTMLMediaElement.prototype.canPlayType = function(type) {{
                if (type.includes('avc1')) return 'probably';
                if (type.includes('mp4a.40')) return 'probably';
                if (type === 'video/mp4') return 'probably';
                if (type === 'audio/mp4') return 'probably';
                return canPlayType.apply(this, arguments);
            }};

            // 6. WebDriver - set to false (not delete, which makes it undefined)
            Object.defineProperty(Object.getPrototypeOf(navigator), 'webdriver', {{
                get: () => false,
                configurable: true
            }});

            // 7. window.chrome
            window.chrome = {{ runtime: {{}} }};
        "#,
        ua = p.user_agent(),
        platform = p.platform(),
        cores = p.hardware_concurrency(),
        memory = p.device_memory(),
        webgl_vendor = p.webgl_vendor(),
        webgl_renderer = p.webgl_renderer(),
        brands = brands,
        hints_platform = p.client_hints_platform(),
    )
}

fn profiles() -> Vec<Box<dyn StealthProfile>> {
    vec![
        Box::new(WindowsNvidiaProfile),
        Box::new(MacOSProfile),
        Box::new(LinuxProfile),
    ]
}

#[test]
fn bootstrap_script_matches_template_for_every_profile() {
    for p in profiles() {
        assert_eq!(p.bootstrap_script(), expected_script(p.as_ref()));
    }
}

#[test]
fn bootstrap_script_carries_own_values_only() {
    let all = profiles();
    for (i, p) in all.iter().enumerate() {
        let script = p.bootstrap_script();
        assert!(script.contains(&format!("// Profile: {}", p.user_agent())));
        assert!(script.contains(&format!("get: () => '{}',", p.platform())));
        assert!(script.contains(&format!("return '{}';", p.webgl_vendor())));
        assert!(script.contains(&format!("return '{}';", p.webgl_renderer())));
        assert!(script.contains(&format!("get: () => {},", p.hardware_concurrency())));
        assert!(script.contains(&format!("get: () => {},", p.device_memory())));
        assert!(script.contains(&format!("platform: \"{}\"", p.client_hints_platform())));
        for (j, q) in all.iter().enumerate() {
            if i != j {
                assert!(!script.contains(q.user_agent()));
                assert!(!script.contains(&format!("return '{}';", q.webgl_renderer())));
            }
        }
    }
}

#[test]
fn windows_profile_values() {
    let p = WindowsNvidiaProfile;
    assert!(p.user_agent().contains("Windows NT 10.0"));
    assert_eq!(p.platform(), "Win32");
    assert_eq!(p.webgl_vendor(), "Google Inc. (NVIDIA)");
    assert_eq!(p.hardware_concurrency(), 8);
    assert_eq!(p.device_memory(), 8);
    assert_eq!(p.client_hints_platform(), "Windows");
}

#[test]
fn mac_and_linux_profile_values() {
    let m = MacOSProfile;
    assert!(m.user_agent().contains("Macintosh"));
    assert_eq!(m.platform(), "MacIntel");
    assert_eq!(m.hardware_concurrency(), 10);
    assert_eq!(m.device_memory(), 16);
    assert_eq!(m.client_hints_platform(), "macOS");
    let l = LinuxProfile;
    assert!(l.user_agent().contains("X11; Linux x86_64"));
    assert_eq!(l.platform(), "Linux x86_64");
    assert_eq!(l.webgl_renderer(), "NVIDIA GeForce GTX 1080/PCIe/SSE2");
    assert_eq!(l.device_memory(), 16);
    assert_eq!(l.client_hints_platform(), "Linux");
}

#[test]
fn default_hints() {
    assert_eq!(
        default_client_hints_brands(),
        vec![("Google Chrome", "129"), ("Chromium", "129"), ("Not=A?Brand", "24")]
    );
    assert_eq!(default_client_hints_platform(), "Windows");
    let script = WindowsNvidiaProfile.bootstrap_script();
    assert!(script.contains(
        r#"brands: [{ brand: "Google Chrome", version: "129" }, { brand: "Chromium", version: "129" }, { brand: "Not=A?Brand", version: "24" }],"#
    ));
}

#[test]
fn decimal_rendering() {
    for n in [0u32, 7, 10, 1234, u32::MAX] {
        let mut s = String::from("x=");
        append_decimal(&mut s, n);
        assert_eq!(s, format!("x={}", n));
    }
}

struct CustomProfile;

impl StealthProfile for CustomProfile {
    fn user_agent(&self) -> &str {
        "UA"
    }
    fn platform(&self) -> &str {
        "P"
    }
    fn webgl_vendor(&self) -> &str {
        "V"
    }
    fn webgl_renderer(&self) -> &str {
        "R"
    }
    fn hardware_concurrency(&self) -> u32 {
        3
    }
    fn device_memory(&self) -> u32 {
        2
    }
    fn client_hints_brands(&self) -> Vec<(&str, &str)> {
        vec![("Only", "1")]
    }
    fn client_hints_platform(&self) -> &str {
        "Q"
    }
}

#[test]
fn custom_profile_renders() {
    let p = CustomProfile;
    assert_eq!(p.bootstrap_script(), expected_script(&p));
    assert!(p.bootstrap_script().contains(r#"brands: [{ brand: "Only", version: "1" }],"#));
}
