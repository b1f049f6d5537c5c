//! Browser fingerprint profiles and the bootstrap script that installs them.
//!
//! A profile is one coherent browser identity: user agent, platform, GPU
//! strings, hardware counts and client hints. All of it is rendered into a
//! single script that runs before any page script on every new document.
use vstd::prelude::*;
use vstd::string::*;

verus! {

// Literal pieces of the bootstrap script; each profile value goes between two of them.
pub const SCRIPT_HEAD: &'static str = r#"
            // === chaser-oxide HARDWARE HARMONY ===
            // Profile: "#;

pub const SCRIPT_AFTER_UA: &'static str = r#"

            // 1. Platform alignment (on prototype to avoid getOwnPropertyNames detection)
            Object.defineProperty(Navigator.prototype, 'platform', {
                get: () => '"#;

pub const SCRIPT_AFTER_PLATFORM: &'static str = r#"',
                configurable: true
            });

            // 2. Hardware specs (on prototype)
            Object.defineProperty(Navigator.prototype, 'hardwareConcurrency', {
                get: () => "#;

pub const SCRIPT_AFTER_CORES: &'static str = r#",
                configurable: true
            });
            Object.defineProperty(Navigator.prototype, 'deviceMemory', {
                get: () => "#;

pub const SCRIPT_AFTER_MEMORY: &'static str = r#",
                configurable: true
            });

            // 3. WebGL spoofing (both contexts)
            const spoofWebGL = (proto) => {
                const getParameter = proto.getParameter;
                proto.getParameter = function(parameter) {
                    if (parameter === 37445) return '"#;

pub const SCRIPT_AFTER_VENDOR: &'static str = r#"';
                    if (parameter === 37446) return '"#;

pub const SCRIPT_AFTER_RENDERER: &'static str = r#"';
                    return getParameter.apply(this, arguments);
                };
            };
            spoofWebGL(WebGLRenderingContext.prototype);
            if (typeof WebGL2RenderingContext !== 'undefined') {
                spoofWebGL(WebGL2RenderingContext.prototype);
            }

            // 4. Client Hints (on prototype)
            Object.defineProperty(Navigator.prototype, 'userAgentData', {
                get: () => ({
                    brands: ["#;

pub const SCRIPT_AFTER_BRANDS: &'static str = r#"],
                    mobile: false,
                    platform: ""#;

pub const SCRIPT_TAIL: &'static str = r#""
                }),
                configurable: true
            });

            // 5. Video codecs (H.264/AAC)
            const canPlayType = HTMLMediaElement.prototype.canPlayType;
            HTMLMediaElement.prototype.canPlayType = function(type) {
                if (type.includes('avc1')) return 'probably';
                if (type.includes('mp4a.40')) return 'probably';
                if (type === 'video/mp4') return 'probably';
                if (type === 'audio/mp4') return 'probably';
                return canPlayType.apply(this, arguments);
            };

            // 6. WebDriver - set to false (not delete, which makes it undefined)
            Object.defineProperty(Object.getPrototypeOf(navigator), 'webdriver', {
                get: () => false,
                configurable: true
            });

            // 7. window.chrome
            window.chrome = { runtime: {} };
        "#;

/// Text of a natural number in decimal notation.
pub open spec fn decimal_text(n: nat) -> Seq<char>
    decreases n,
{
    if n < 10 {
        seq![digit_char(n)]
    } else {
        decimal_text(n / 10).push(digit_char(n % 10))
    }
}

/// The decimal digit for a value below ten.
pub open spec fn digit_char(d: nat) -> char {
    if d == 0 {
        '0'
    } else if d == 1 {
        '1'
    } else if d == 2 {
        '2'
    } else if d == 3 {
        '3'
    } else if d == 4 {
        '4'
    } else if d == 5 {
        '5'
    } else if d == 6 {
        '6'
    } else if d == 7 {
        '7'
    } else if d == 8 {
        '8'
    } else {
        '9'
    }
}

/// One client-hint brand as a JavaScript object literal.
pub open spec fn brand_entry_text(brand: (Seq<char>, Seq<char>)) -> Seq<char> {
    "{ brand: \""@ + brand.0 + "\", version: \""@ + brand.1 + "\" }"@
}

/// The brand entries, separated by a comma and a space.
pub open spec fn brands_text(brands: Seq<(Seq<char>, Seq<char>)>) -> Seq<char>
    decreases brands.len(),
{
    if brands.len() == 0 {
        Seq::empty()
    } else if brands.len() == 1 {
        brand_entry_text(brands[0])
    } else {
        brands_text(brands.drop_last()) + ", "@ + brand_entry_text(brands.last())
    }
}

/// The brand list of a vector of string pairs, as character sequences.
pub open spec fn brand_views(v: Seq<(&str, &str)>) -> Seq<(Seq<char>, Seq<char>)> {
    Seq::new(v.len(), |i: int| (v[i].0@, v[i].1@))
}

/// The complete bootstrap script for the given fingerprint values.
pub open spec fn bootstrap_text(
    user_agent: Seq<char>,
    platform: Seq<char>,
    cores: nat,
    memory: nat,
    webgl_vendor: Seq<char>,
    webgl_renderer: Seq<char>,
    brands: Seq<(Seq<char>, Seq<char>)>,
    hints_platform: Seq<char>,
) -> Seq<char> {
    SCRIPT_HEAD@ + user_agent + SCRIPT_AFTER_UA@ + platform + SCRIPT_AFTER_PLATFORM@
        + decimal_text(cores) + SCRIPT_AFTER_CORES@ + decimal_text(memory)
        + SCRIPT_AFTER_MEMORY@ + webgl_vendor + SCRIPT_AFTER_VENDOR@ + webgl_renderer
        + SCRIPT_AFTER_RENDERER@ + brands_text(brands) + SCRIPT_AFTER_BRANDS@ + hints_platform
        + SCRIPT_TAIL@
}

/// `needle` occurs in `hay` as a contiguous run.
pub open spec fn is_infix(needle: Seq<char>, hay: Seq<char>) -> bool {
    exists|i: int|
        0 <= i && i + needle.len() <= hay.len() && #[trigger] hay.subrange(i, i + needle.len())
            == needle
}

proof fn lemma_infix_of_suffix(a: Seq<char>, needle: Seq<char>)
    ensures
        is_infix(needle, a + needle),
{
    let h = a + needle;
    assert(h.subrange(a.len() as int, (a.len() + needle.len()) as int) =~= needle);
}

proof fn lemma_infix_extend(needle: Seq<char>, a: Seq<char>, b: Seq<char>)
    requires
        is_infix(needle, a),
    ensures
        is_infix(needle, a + b),
{
    let i = choose|i: int|
        0 <= i && i + needle.len() <= a.len() && #[trigger] a.subrange(i, i + needle.len())
            == needle;
    assert((a + b).subrange(i, i + needle.len()) =~= a.subrange(i, i + needle.len()));
}

/// Every value of a fingerprint stands verbatim in its bootstrap script: the
/// user agent, the platform, both GPU strings, the hardware counts in decimal,
/// the rendered brand list and the client-hint platform.
pub proof fn lemma_bootstrap_carries_fields(
    user_agent: Seq<char>,
    platform: Seq<char>,
    cores: nat,
    memory: nat,
    webgl_vendor: Seq<char>,
    webgl_renderer: Seq<char>,
    brands: Seq<(Seq<char>, Seq<char>)>,
    hints_platform: Seq<char>,
)
    ensures
        ({
            let text = bootstrap_text(
                user_agent,
                platform,
                cores,
                memory,
                webgl_vendor,
                webgl_renderer,
                brands,
                hints_platform,
            );
            &&& is_infix(user_agent, text)
            &&& is_infix(platform, text)
            &&& is_infix(decimal_text(cores), text)
            &&& is_infix(decimal_text(memory), text)
            &&& is_infix(webgl_vendor, text)
            &&& is_infix(webgl_renderer, text)
            &&& is_infix(brands_text(brands), text)
            &&& is_infix(hints_platform, text)
        }),
{
    assert forall|n: Seq<char>, a: Seq<char>, b: Seq<char>| is_infix(n, a) implies #[trigger] is_infix(
        n,
        a + b,
    ) by {
        lemma_infix_extend(n, a, b);
    }
    let t1 = SCRIPT_HEAD@ + user_agent;
    let t3 = t1 + SCRIPT_AFTER_UA@ + platform;
    let t5 = t3 + SCRIPT_AFTER_PLATFORM@ + decimal_text(cores);
    let t7 = t5 + SCRIPT_AFTER_CORES@ + decimal_text(memory);
    let t9 = t7 + SCRIPT_AFTER_MEMORY@ + webgl_vendor;
    let t11 = t9 + SCRIPT_AFTER_VENDOR@ + webgl_renderer;
    let t13 = t11 + SCRIPT_AFTER_RENDERER@ + brands_text(brands);
    let t15 = t13 + SCRIPT_AFTER_BRANDS@ + hints_platform;
    lemma_infix_of_suffix(SCRIPT_HEAD@, user_agent);
    lemma_infix_of_suffix(t1 + SCRIPT_AFTER_UA@, platform);
    lemma_infix_of_suffix(t3 + SCRIPT_AFTER_PLATFORM@, decimal_text(cores));
    lemma_infix_of_suffix(t5 + SCRIPT_AFTER_CORES@, decimal_text(memory));
    lemma_infix_of_suffix(t7 + SCRIPT_AFTER_MEMORY@, webgl_vendor);
    lemma_infix_of_suffix(t9 + SCRIPT_AFTER_VENDOR@, webgl_renderer);
    lemma_infix_of_suffix(t11 + SCRIPT_AFTER_RENDERER@, brands_text(brands));
    lemma_infix_of_suffix(t13 + SCRIPT_AFTER_BRANDS@, hints_platform);
}

/// The client-hint brands that a Chrome build reports.
pub open spec fn chrome_brands() -> Seq<(Seq<char>, Seq<char>)> {
    seq![
        ("Google Chrome"@, "129"@),
        ("Chromium"@, "129"@),
        ("Not=A?Brand"@, "24"@),
    ]
}

/// A consistent browser identity.
///
/// All values must describe one real device class: a Windows user agent
/// beside a Mac platform string is exactly what detectors look for.
pub trait StealthProfile {
    // The values that a profile states; each verified profile gives its own.
    // A profile written outside of verification may leave them unstated.
    open spec fn spec_user_agent(&self) -> Seq<char> {
        arbitrary()
    }

    open spec fn spec_platform(&self) -> Seq<char> {
        arbitrary()
    }

    open spec fn spec_webgl_vendor(&self) -> Seq<char> {
        arbitrary()
    }

    open spec fn spec_webgl_renderer(&self) -> Seq<char> {
        arbitrary()
    }

    open spec fn spec_hardware_concurrency(&self) -> u32 {
        arbitrary()
    }

    open spec fn spec_device_memory(&self) -> u32 {
        arbitrary()
    }

    open spec fn spec_client_hints_brands(&self) -> Seq<(Seq<char>, Seq<char>)> {
        arbitrary()
    }

    open spec fn spec_client_hints_platform(&self) -> Seq<char> {
        arbitrary()
    }

    /// The User-Agent string.
    fn user_agent(&self) -> (r: &str)
        ensures
            r@ == self.spec_user_agent(),
    ;

    /// The `navigator.platform` value.
    fn platform(&self) -> (r: &str)
        ensures
            r@ == self.spec_platform(),
    ;

    /// The unmasked WebGL vendor.
    fn webgl_vendor(&self) -> (r: &str)
        ensures
            r@ == self.spec_webgl_vendor(),
    ;

    /// The unmasked WebGL renderer.
    fn webgl_renderer(&self) -> (r: &str)
        ensures
            r@ == self.spec_webgl_renderer(),
    ;

    /// The `navigator.hardwareConcurrency` value.
    fn hardware_concurrency(&self) -> (r: u32)
        ensures
            r == self.spec_hardware_concurrency(),
    ;

    /// The `navigator.deviceMemory` value, in gigabytes.
    fn device_memory(&self) -> (r: u32)
        ensures
            r == self.spec_device_memory(),
    ;

    /// The client-hint brand list, as (brand, version) pairs.
    fn client_hints_brands(&self) -> (r: Vec<(&str, &str)>)
        ensures
            brand_views(r@) == self.spec_client_hints_brands(),
    ;

    /// The client-hint platform.
    fn client_hints_platform(&self) -> (r: &str)
        ensures
            r@ == self.spec_client_hints_platform(),
    ;

    /// Renders every value of the profile into one bootstrap script.
    fn bootstrap_script(&self) -> (r: String)
        ensures
            r@ == bootstrap_text(
                self.spec_user_agent(),
                self.spec_platform(),
                self.spec_hardware_concurrency() as nat,
                self.spec_device_memory() as nat,
                self.spec_webgl_vendor(),
                self.spec_webgl_renderer(),
                self.spec_client_hints_brands(),
                self.spec_client_hints_platform(),
            ),
    {
        let mut s = String::from_str(SCRIPT_HEAD);
        s.append(self.user_agent());
        s.append(SCRIPT_AFTER_UA);
        s.append(self.platform());
        s.append(SCRIPT_AFTER_PLATFORM);
        append_decimal(&mut s, self.hardware_concurrency());
        s.append(SCRIPT_AFTER_CORES);
        append_decimal(&mut s, self.device_memory());
        s.append(SCRIPT_AFTER_MEMORY);
        s.append(self.webgl_vendor());
        s.append(SCRIPT_AFTER_VENDOR);
        s.append(self.webgl_renderer());
        s.append(SCRIPT_AFTER_RENDERER);
        let brands = self.client_hints_brands();
        append_brands(&mut s, &brands);
        s.append(SCRIPT_AFTER_BRANDS);
        s.append(self.client_hints_platform());
        s.append(SCRIPT_TAIL);
        s
    }
}

/// The brand list that Chrome reports; profiles use it unless they say otherwise.
pub fn default_client_hints_brands() -> (r: Vec<(&'static str, &'static str)>)
    ensures
        brand_views(r@) == chrome_brands(),
{
    let r = vec![("Google Chrome", "129"), ("Chromium", "129"), ("Not=A?Brand", "24")];
    assert(brand_views(r@) =~= chrome_brands());
    r
}

/// The client-hint platform that profiles report unless they say otherwise.
pub fn default_client_hints_platform() -> (r: &'static str)
    ensures
        r@ == "Windows"@,
{
    "Windows"
}

fn digit_str(d: u32) -> (r: &'static str)
    requires
        d < 10,
    ensures
        r@ == seq![digit_char(d as nat)],
{
    proof {
        reveal_strlit("0");
        reveal_strlit("1");
        reveal_strlit("2");
        reveal_strlit("3");
        reveal_strlit("4");
        reveal_strlit("5");
        reveal_strlit("6");
        reveal_strlit("7");
        reveal_strlit("8");
        reveal_strlit("9");
    }
    let r = if d == 0 {
        "0"
    } else if d == 1 {
        "1"
    } else if d == 2 {
        "2"
    } else if d == 3 {
        "3"
    } else if d == 4 {
        "4"
    } else if d == 5 {
        "5"
    } else if d == 6 {
        "6"
    } else if d == 7 {
        "7"
    } else if d == 8 {
        "8"
    } else {
        "9"
    };
    assert(r@ =~= seq![digit_char(d as nat)]);
    r
}

/// Appends `n` in decimal notation.
pub fn append_decimal(s: &mut String, n: u32)
    ensures
        final(s)@ == old(s)@ + decimal_text(n as nat),
    decreases n,
{
    if n >= 10 {
        append_decimal(s, n / 10);
    }
    s.append(digit_str(n % 10));
    assert(final(s)@ =~= old(s)@ + decimal_text(n as nat));
}

/// Appends the brand entries, separated by a comma and a space.
pub fn append_brands(s: &mut String, brands: &Vec<(&str, &str)>)
    ensures
        final(s)@ == old(s)@ + brands_text(brand_views(brands@)),
{
    let ghost start = s@;
    let mut i: usize = 0;
    while i < brands.len()
        invariant
            i <= brands.len(),
            s@ == start + brands_text(brand_views(brands@.take(i as int))),
        decreases brands.len() - i,
    {
        let ghost before = s@;
        let (brand, version) = brands[i];
        if i > 0 {
            s.append(", ");
        }
        s.append("{ brand: \"");
        s.append(brand);
        s.append("\", version: \"");
        s.append(version);
        s.append("\" }");
        proof {
            let next = brand_views(brands@.take(i + 1));
            assert(next.drop_last() =~= brand_views(brands@.take(i as int)));
            assert(next.last() == (brand@, version@));
        }
        i = i + 1;
        assert(s@ =~= start + brands_text(brand_views(brands@.take(i as int))));
    }
    assert(brands@.take(i as int) =~= brands@);
}

/// The common Windows 10/11 identity with an NVIDIA RTX GPU.
#[derive(Debug, Clone, Copy, PartialEq, Eq)]
pub struct WindowsNvidiaProfile;

impl Default for WindowsNvidiaProfile {
    fn default() -> (r: Self)
        ensures
            r == (WindowsNvidiaProfile),
    {
        WindowsNvidiaProfile
    }
}

impl StealthProfile for WindowsNvidiaProfile {
    open spec fn spec_user_agent(&self) -> Seq<char> {
        "Mozilla/5.0 (Windows NT 10.0; Win64; x64) AppleWebKit/537.36 (KHTML, like Gecko) Chrome/129.0.0.0 Safari/537.36"@
    }

    open spec fn spec_platform(&self) -> Seq<char> {
        "Win32"@
    }

    open spec fn spec_webgl_vendor(&self) -> Seq<char> {
        "Google Inc. (NVIDIA)"@
    }

    open spec fn spec_webgl_renderer(&self) -> Seq<char> {
        "ANGLE (NVIDIA, NVIDIA GeForce RTX 3080 Direct3D11 vs_5_0 ps_5_0)"@
    }

    open spec fn spec_hardware_concurrency(&self) -> u32 {
        8
    }

    open spec fn spec_device_memory(&self) -> u32 {
        8
    }

    open spec fn spec_client_hints_brands(&self) -> Seq<(Seq<char>, Seq<char>)> {
        chrome_brands()
    }

    open spec fn spec_client_hints_platform(&self) -> Seq<char> {
        "Windows"@
    }

    fn user_agent(&self) -> (r: &str) {
        "Mozilla/5.0 (Windows NT 10.0; Win64; x64) AppleWebKit/537.36 (KHTML, like Gecko) Chrome/129.0.0.0 Safari/537.36"
    }

    fn platform(&self) -> (r: &str) {
        "Win32"
    }

    fn webgl_vendor(&self) -> (r: &str) {
        "Google Inc. (NVIDIA)"
    }

    fn webgl_renderer(&self) -> (r: &str) {
        "ANGLE (NVIDIA, NVIDIA GeForce RTX 3080 Direct3D11 vs_5_0 ps_5_0)"
    }

    fn hardware_concurrency(&self) -> (r: u32) {
        8
    }

    fn device_memory(&self) -> (r: u32) {
        8
    }

    fn client_hints_brands(&self) -> (r: Vec<(&str, &str)>) {
        default_client_hints_brands()
    }

    fn client_hints_platform(&self) -> (r: &str) {
        default_client_hints_platform()
    }
}

/// A Mac identity with an Apple GPU.
#[derive(Debug, Clone, Copy, PartialEq, Eq)]
pub struct MacOSProfile;

impl Default for MacOSProfile {
    fn default() -> (r: Self)
        ensures
            r == (MacOSProfile),
    {
        MacOSProfile
    }
}

impl StealthProfile for MacOSProfile {
    open spec fn spec_user_agent(&self) -> Seq<char> {
        "Mozilla/5.0 (Macintosh; Intel Mac OS X 10_15_7) AppleWebKit/537.36 (KHTML, like Gecko) Chrome/129.0.0.0 Safari/537.36"@
    }

    open spec fn spec_platform(&self) -> Seq<char> {
        "MacIntel"@
    }

    open spec fn spec_webgl_vendor(&self) -> Seq<char> {
        "Google Inc. (Apple)"@
    }

    open spec fn spec_webgl_renderer(&self) -> Seq<char> {
        "ANGLE (Apple, Apple M1 Pro, OpenGL 4.1)"@
    }

    open spec fn spec_hardware_concurrency(&self) -> u32 {
        10
    }

    open spec fn spec_device_memory(&self) -> u32 {
        16
    }

    open spec fn spec_client_hints_brands(&self) -> Seq<(Seq<char>, Seq<char>)> {
        chrome_brands()
    }

    open spec fn spec_client_hints_platform(&self) -> Seq<char> {
        "macOS"@
    }

    fn user_agent(&self) -> (r: &str) {
        "Mozilla/5.0 (Macintosh; Intel Mac OS X 10_15_7) AppleWebKit/537.36 (KHTML, like Gecko) Chrome/129.0.0.0 Safari/537.36"
    }

    fn platform(&self) -> (r: &str) {
        "MacIntel"
    }

    fn webgl_vendor(&self) -> (r: &str) {
        "Google Inc. (Apple)"
    }

    fn webgl_renderer(&self) -> (r: &str) {
        "ANGLE (Apple, Apple M1 Pro, OpenGL 4.1)"
    }

    fn hardware_concurrency(&self) -> (r: u32) {
        10
    }

    fn device_memory(&self) -> (r: u32) {
        16
    }

    fn client_hints_brands(&self) -> (r: Vec<(&str, &str)>) {
        default_client_hints_brands()
    }

    fn client_hints_platform(&self) -> (r: &str) {
        "macOS"
    }
}

/// A Linux identity with an NVIDIA GPU.
#[derive(Debug, Clone, Copy, PartialEq, Eq)]
pub struct LinuxProfile;

impl Default for LinuxProfile {
    fn default() -> (r: Self)
        ensures
            r == (LinuxProfile),
    {
        LinuxProfile
    }
}

impl StealthProfile for LinuxProfile {
    open spec fn spec_user_agent(&self) -> Seq<char> {
        "Mozilla/5.0 (X11; Linux x86_64) AppleWebKit/537.36 (KHTML, like Gecko) Chrome/129.0.0.0 Safari/537.36"@
    }

    open spec fn spec_platform(&self) -> Seq<char> {
        "Linux x86_64"@
    }

    open spec fn spec_webgl_vendor(&self) -> Seq<char> {
        "Google Inc. (NVIDIA Corporation)"@
    }

    open spec fn spec_webgl_renderer(&self) -> Seq<char> {
        "NVIDIA GeForce GTX 1080/PCIe/SSE2"@
    }

    open spec fn spec_hardware_concurrency(&self) -> u32 {
        8
    }

    open spec fn spec_device_memory(&self) -> u32 {
        16
    }

    open spec fn spec_client_hints_brands(&self) -> Seq<(Seq<char>, Seq<char>)> {
        chrome_brands()
    }

    open spec fn spec_client_hints_platform(&self) -> Seq<char> {
        "Linux"@
    }

    fn user_agent(&self) -> (r: &str) {
        "Mozilla/5.0 (X11; Linux x86_64) AppleWebKit/537.36 (KHTML, like Gecko) Chrome/129.0.0.0 Safari/537.36"
    }

    fn platform(&self) -> (r: &str) {
        "Linux x86_64"
    }

    fn webgl_vendor(&self) -> (r: &str) {
        "Google Inc. (NVIDIA Corporation)"
    }

    fn webgl_renderer(&self) -> (r: &str) {
        "NVIDIA GeForce GTX 1080/PCIe/SSE2"
    }

    fn hardware_concurrency(&self) -> (r: u32) {
        8
    }

    fn device_memory(&self) -> (r: u32) {
        16
    }

    fn client_hints_brands(&self) -> (r: Vec<(&str, &str)>) {
        default_client_hints_brands()
    }

    fn client_hints_platform(&self) -> (r: &str) {
        "Linux"
    }
}

} // verus!
