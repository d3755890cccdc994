//! Browser preview tool: serves static files over local HTTP.  The server
//! itself runs outside the library; here are its name, mode rule, handle
//! and the content type it reports for a file extension.
use crate::text::{
    chars_of, decimal, push_decimal, push_str, split_whitespace_chars, str_eq, string_from_chars,
    to_owned_string, ws_tokens,
};
use crate::tool_registry::Tool;
use crate::types::{ExecutionMode, ForgeError, ToolName};
use vstd::prelude::*;
use vstd::string::StringSliceAdditionalSpecFns;

verus! {

/// First port tried for a preview server.
pub const DEFAULT_PORT_START: u16 = 8080;

/// One past the last port tried.
pub const DEFAULT_PORT_END: u16 = 8090;

/// Preview servers are started on the ports 8080 to 8089.
pub proof fn law_preview_ports()
    ensures
        DEFAULT_PORT_START == 8080,
        DEFAULT_PORT_END == 8090,
{
}

/// Handle of a running preview server.
#[derive(Debug, Clone)]
pub struct ServerHandle {
    pub port: u16,
    pub url: String,
    pub root_dir: String,
}

/// Browser preview tool.
#[derive(Debug)]
pub struct BrowserPreviewTool {
    _private: (),
}

impl BrowserPreviewTool {
    pub fn new() -> (r: Self) {
        BrowserPreviewTool { _private: () }
    }
}

impl Default for BrowserPreviewTool {
    fn default() -> (r: Self) {
        BrowserPreviewTool::new()
    }
}

/// What `BrowserPreviewTool` tells the planner it does.
pub open spec fn browser_preview_tool_description() -> Seq<char> {
    "Start a local HTTP server to serve static files and provide a browser preview URL.\n\nArguments:\n  - directory: Root directory to serve (default: current directory)\n  - port: Specific port to use (optional, auto-detected if not specified)\n  - open: Whether to open browser automatically (default: false)\n\nReturns:\n  - preview_url: The URL to access the preview\n  - port: The port the server is running on\n  - directory: The served directory path\n\nExample:\n  {\"tool\": \"browser_preview\", \"arguments\": {\"directory\": \"./dist\", \"port\": 8080}}"@
}

impl Tool for BrowserPreviewTool {
    open spec fn tool_name(&self) -> Seq<char> {
        "browser_preview"@
    }

    fn name(&self) -> (r: ToolName)
        ensures
            r@ == "browser_preview"@,
    {
        proof {
            reveal_strlit("browser_preview");
        }
        ToolName::known("browser_preview")
    }

    fn description(&self) -> (r: &'static str)
        ensures
            r@ == browser_preview_tool_description(),
    {
        "Start a local HTTP server to serve static files and provide a browser preview URL.\n\nArguments:\n  - directory: Root directory to serve (default: current directory)\n  - port: Specific port to use (optional, auto-detected if not specified)\n  - open: Whether to open browser automatically (default: false)\n\nReturns:\n  - preview_url: The URL to access the preview\n  - port: The port the server is running on\n  - directory: The served directory path\n\nExample:\n  {\"tool\": \"browser_preview\", \"arguments\": {\"directory\": \"./dist\", \"port\": 8080}}"
    }

    fn allowed_in_mode(&self, mode: ExecutionMode) -> (r: bool)
        ensures
            r == !(mode is Analysis),
    {
        match mode {
            ExecutionMode::Analysis => false,
            _ => true,
        }
    }
}

/// MIME type served for a file extension.
pub open spec fn content_type_for(extension: Option<Seq<char>>) -> Seq<char> {
    match extension {
        Some(e) => if e == "html"@ || e == "htm"@ {
            "text/html"@
        } else if e == "css"@ {
            "text/css"@
        } else if e == "js"@ {
            "application/javascript"@
        } else if e == "json"@ {
            "application/json"@
        } else if e == "png"@ {
            "image/png"@
        } else if e == "jpg"@ || e == "jpeg"@ {
            "image/jpeg"@
        } else if e == "gif"@ {
            "image/gif"@
        } else if e == "svg"@ {
            "image/svg+xml"@
        } else if e == "ico"@ {
            "image/x-icon"@
        } else if e == "woff"@ {
            "font/woff"@
        } else if e == "woff2"@ {
            "font/woff2"@
        } else if e == "ttf"@ {
            "font/ttf"@
        } else {
            "application/octet-stream"@
        },
        None => "application/octet-stream"@,
    }
}

/// The preview server labels HTML, CSS, JavaScript, JSON, images and fonts
/// by their MIME types, and anything else as a byte stream.
pub proof fn law_content_types(e: Seq<char>)
    ensures
        content_type_for(Some("html"@)) == "text/html"@,
        content_type_for(Some("htm"@)) == "text/html"@,
        content_type_for(Some("css"@)) == "text/css"@,
        content_type_for(Some("js"@)) == "application/javascript"@,
        content_type_for(Some("json"@)) == "application/json"@,
        content_type_for(Some("png"@)) == "image/png"@,
        content_type_for(Some("jpg"@)) == "image/jpeg"@,
        content_type_for(Some("jpeg"@)) == "image/jpeg"@,
        content_type_for(Some("gif"@)) == "image/gif"@,
        content_type_for(Some("svg"@)) == "image/svg+xml"@,
        content_type_for(Some("ico"@)) == "image/x-icon"@,
        content_type_for(Some("woff"@)) == "font/woff"@,
        content_type_for(Some("woff2"@)) == "font/woff2"@,
        content_type_for(Some("ttf"@)) == "font/ttf"@,
        (e != "html"@ && e != "htm"@ && e != "css"@ && e != "js"@ && e != "json"@ && e != "png"@ && e != "jpg"@ && e != "jpeg"@ && e != "gif"@ && e != "svg"@ && e != "ico"@ && e != "woff"@ && e != "woff2"@ && e != "ttf"@) ==> content_type_for(Some(e)) == "application/octet-stream"@,
        content_type_for(None) == "application/octet-stream"@,
{
    reveal_strlit("html");
    assert("html"@.len() == 4 && "html"@[0] == 'h' && "html"@[1] == 't');
    reveal_strlit("htm");
    assert("htm"@.len() == 3 && "htm"@[0] == 'h' && "htm"@[1] == 't');
    reveal_strlit("css");
    assert("css"@.len() == 3 && "css"@[0] == 'c' && "css"@[1] == 's');
    reveal_strlit("js");
    assert("js"@.len() == 2 && "js"@[0] == 'j' && "js"@[1] == 's');
    reveal_strlit("json");
    assert("json"@.len() == 4 && "json"@[0] == 'j' && "json"@[1] == 's');
    reveal_strlit("png");
    assert("png"@.len() == 3 && "png"@[0] == 'p' && "png"@[1] == 'n');
    reveal_strlit("jpg");
    assert("jpg"@.len() == 3 && "jpg"@[0] == 'j' && "jpg"@[1] == 'p');
    reveal_strlit("jpeg");
    assert("jpeg"@.len() == 4 && "jpeg"@[0] == 'j' && "jpeg"@[1] == 'p');
    reveal_strlit("gif");
    assert("gif"@.len() == 3 && "gif"@[0] == 'g' && "gif"@[1] == 'i');
    reveal_strlit("svg");
    assert("svg"@.len() == 3 && "svg"@[0] == 's' && "svg"@[1] == 'v');
    reveal_strlit("ico");
    assert("ico"@.len() == 3 && "ico"@[0] == 'i' && "ico"@[1] == 'c');
    reveal_strlit("woff");
    assert("woff"@.len() == 4 && "woff"@[0] == 'w' && "woff"@[1] == 'o');
    reveal_strlit("woff2");
    assert("woff2"@.len() == 5 && "woff2"@[0] == 'w' && "woff2"@[1] == 'o');
    reveal_strlit("ttf");
    assert("ttf"@.len() == 3 && "ttf"@[0] == 't' && "ttf"@[1] == 't');
}

/// Guesses the MIME type from a file's extension (as `Path::extension`
/// gives it).
pub fn guess_content_type(extension: Option<&str>) -> (r: &'static str)
    ensures
        r@ == content_type_for(
            match extension {
                Some(e) => Some(e@),
                None => None,
            },
        ),
{
    match extension {
        Some(e) => {
            if str_eq(e, "html") || str_eq(e, "htm") {
                "text/html"
            } else if str_eq(e, "css") {
                "text/css"
            } else if str_eq(e, "js") {
                "application/javascript"
            } else if str_eq(e, "json") {
                "application/json"
            } else if str_eq(e, "png") {
                "image/png"
            } else if str_eq(e, "jpg") || str_eq(e, "jpeg") {
                "image/jpeg"
            } else if str_eq(e, "gif") {
                "image/gif"
            } else if str_eq(e, "svg") {
                "image/svg+xml"
            } else if str_eq(e, "ico") {
                "image/x-icon"
            } else if str_eq(e, "woff") {
                "font/woff"
            } else if str_eq(e, "woff2") {
                "font/woff2"
            } else if str_eq(e, "ttf") {
                "font/ttf"
            } else {
                "application/octet-stream"
            }
        },
        None => "application/octet-stream",
    }
}

/// The text without its leading `/`s.
pub open spec fn strip_leading_slashes(s: Seq<char>) -> Seq<char>
    decreases s.len(),
{
    if s.len() > 0 && s[0] == '/' {
        strip_leading_slashes(s.subrange(1, s.len() as int))
    } else {
        s
    }
}

/// The file an HTTP request line asks for, relative to the served root:
/// `index.html` for `/`, else the target less its leading `/`s; nothing
/// for a line of fewer than two words.
pub open spec fn request_target_of(line: Seq<char>) -> Option<Seq<char>> {
    let words = ws_tokens(line);
    if words.len() < 2 {
        None
    } else if words[1] == seq!['/'] {
        Some("index.html"@)
    } else {
        Some(strip_leading_slashes(words[1]))
    }
}

/// The file a request line asks for (see `request_target_of`).
pub fn request_target(request_line: &str) -> (r: Option<String>)
    ensures
        match r {
            Some(t) => request_target_of(request_line@) == Some(t@),
            None => request_target_of(request_line@) is None,
        },
{
    let chars = chars_of(request_line);
    let words = split_whitespace_chars(&chars);
    let ghost wv = words@.map_values(|t: Vec<char>| t@);
    if words.len() < 2 {
        return None;
    }
    let target = &words[1];
    assert(target@ == wv[1]);
    if target.len() == 1 && target[0] == '/' {
        assert(target@ =~= seq!['/']);
        return Some(to_owned_string("index.html"));
    }
    proof {
        if target@.len() == 1 {
            assert(target@ != seq!['/']) by {
                assert(target@[0] != seq!['/'][0]);
            }
        }
    }
    let mut start: usize = 0;
    assert(target@.subrange(0, target@.len() as int) =~= target@);
    while start < target.len() && target[start] == '/'
        invariant
            start <= target@.len(),
            strip_leading_slashes(target@.subrange(start as int, target@.len() as int))
                == strip_leading_slashes(target@),
        decreases target@.len() - start,
    {
        assert(target@.subrange(start + 1, target@.len() as int) =~= target@.subrange(
            start as int,
            target@.len() as int,
        ).subrange(1, target@.len() - start));
        start = start + 1;
    }
    let mut out: Vec<char> = Vec::new();
    let mut i: usize = start;
    while i < target.len()
        invariant
            start <= i <= target@.len(),
            out@ == target@.subrange(start as int, i as int),
        decreases target@.len() - i,
    {
        out.push(target[i]);
        i = i + 1;
        assert(out@ =~= target@.subrange(start as int, i as int));
    }
    proof {
        assert(target@.subrange(0, target@.len() as int) =~= target@);
    }
    Some(string_from_chars(&out))
}

/// The head of a successful response serving `length` bytes.
pub fn ok_header(content_type: &str, length: usize) -> (r: String)
    ensures
        r@ == "HTTP/1.1 200 OK\r\nContent-Type: "@ + content_type@ + "\r\nContent-Length: "@
            + decimal(length as nat) + "\r\n\r\n"@,
{
    let mut r = to_owned_string("HTTP/1.1 200 OK\r\nContent-Type: ");
    push_str(&mut r, content_type);
    push_str(&mut r, "\r\nContent-Length: ");
    push_decimal(&mut r, length as u64);
    push_str(&mut r, "\r\n\r\n");
    r
}

/// A plain-text error response: status line, headers and the message as
/// body, its length counted in bytes.
pub fn error_response(code: u16, message: &str) -> (r: String)
    ensures
        r@ == "HTTP/1.1 "@ + decimal(code as nat) + " "@ + message@
            + "\r\nContent-Type: text/plain\r\nContent-Length: "@ + decimal(
            (message.spec_bytes().len() as usize) as nat,
        ) + "\r\n\r\n"@ + message@,
{
    let mut r = to_owned_string("HTTP/1.1 ");
    push_decimal(&mut r, code as u64);
    push_str(&mut r, " ");
    push_str(&mut r, message);
    push_str(&mut r, "\r\nContent-Type: text/plain\r\nContent-Length: ");
    let n = message.len();
    push_decimal(&mut r, n as u64);
    push_str(&mut r, "\r\n\r\n");
    push_str(&mut r, message);
    assert(r@ =~= "HTTP/1.1 "@ + decimal(code as nat) + " "@ + message@
        + "\r\nContent-Type: text/plain\r\nContent-Length: "@ + decimal((message.spec_bytes().len() as usize) as nat)
        + "\r\n\r\n"@ + message@);
    r
}

/// Model of a server handle.
pub open spec fn handle_view(h: ServerHandle) -> (u16, Seq<char>, Seq<char>) {
    (h.port, h.url@, h.root_dir@)
}

fn copy_handle(h: &ServerHandle) -> (r: ServerHandle)
    ensures
        handle_view(r) == handle_view(*h),
{
    ServerHandle {
        port: h.port,
        url: to_owned_string(h.url.as_str()),
        root_dir: to_owned_string(h.root_dir.as_str()),
    }
}

/// The preview servers that are running, at most one per port.
pub struct ServerRegistry {
    servers: Vec<ServerHandle>,
}

impl View for ServerRegistry {
    type V = Seq<(u16, Seq<char>, Seq<char>)>;

    closed spec fn view(&self) -> Seq<(u16, Seq<char>, Seq<char>)> {
        self.servers@.map_values(|h: ServerHandle| handle_view(h))
    }
}

/// The handle registered for `port` among `servers`, if any.
pub open spec fn server_on(servers: Seq<(u16, Seq<char>, Seq<char>)>, port: u16) -> Option<
    (u16, Seq<char>, Seq<char>),
> {
    if exists|i: int| 0 <= i < servers.len() && servers[i].0 == port {
        let i = choose|i: int| 0 <= i < servers.len() && servers[i].0 == port;
        Some(servers[i])
    } else {
        None
    }
}

impl ServerRegistry {
    #[verifier::type_invariant]
    closed spec fn ports_distinct(&self) -> bool {
        forall|i: int, j: int|
            0 <= i < j < self@.len() ==> #[trigger] self@[i].0 != #[trigger] self@[j].0
    }

    /// No server running.
    pub fn new() -> (r: Self)
        ensures
            r@ == Seq::<(u16, Seq<char>, Seq<char>)>::empty(),
    {
        ServerRegistry { servers: Vec::new() }
    }

    fn position(&self, port: u16) -> (r: Option<usize>)
        ensures
            r matches Some(i) ==> server_on(self@, port) == Some(self@[i as int]),
            r matches Some(i) ==> i < self@.len() && self@[i as int].0 == port,
            r is None ==> forall|i: int| 0 <= i < self@.len() ==> self@[i].0 != port,
    {
        proof {
            use_type_invariant(self);
        }
        let mut i: usize = 0;
        while i < self.servers.len()
            invariant
                i <= self.servers@.len(),
                forall|k: int| 0 <= k < i ==> self@[k].0 != port,
                forall|a: int, b: int|
                    0 <= a < b < self@.len() ==> #[trigger] self@[a].0 != #[trigger] self@[b].0,
            decreases self.servers.len() - i,
        {
            if self.servers[i].port == port {
                assert(self@[i as int].0 == port);
                let ghost k = choose|k: int| 0 <= k < self@.len() && self@[k].0 == port;
                assert(k == i) by {
                    if k != i {
                        if k < i {
                        } else {
                            assert(self@[i as int].0 != self@[k].0);
                        }
                    }
                }
                return Some(i);
            }
            i = i + 1;
        }
        None
    }

    /// Records a started server; a server registered on the same port
    /// before is replaced.
    pub fn register(&mut self, handle: ServerHandle)
        ensures
            server_on(final(self)@, handle.port) == Some(handle_view(handle)),
            forall|p: u16| p != handle.port ==> server_on(final(self)@, p) == server_on(old(self)@, p),
    {
        proof {
            use_type_invariant(&*self);
        }
        let ghost old_v = self@;
        let ghost hv = handle_view(handle);
        match self.position(handle.port) {
            Some(i) => {
                let mut v: Vec<ServerHandle> = Vec::new();
                std::mem::swap(&mut v, &mut self.servers);
                v.set(i, handle);
                let ghost vv = v@.map_values(|h: ServerHandle| handle_view(h));
                assert(vv =~= old_v.update(i as int, hv));
                assert forall|a: int, b: int| 0 <= a < b < vv.len() implies #[trigger] vv[a].0
                    != #[trigger] vv[b].0 by {
                    if a != i as int && b != i as int {
                        assert(vv[a] == old_v[a] && vv[b] == old_v[b]);
                    } else if a == i as int {
                        assert(vv[b] == old_v[b]);
                    } else {
                        assert(vv[a] == old_v[a]);
                    }
                }
                self.servers = v;
                assert(self@[i as int].0 == hv.0);
            },
            None => {
                let mut v: Vec<ServerHandle> = Vec::new();
                std::mem::swap(&mut v, &mut self.servers);
                v.push(handle);
                let ghost vv = v@.map_values(|h: ServerHandle| handle_view(h));
                assert(vv =~= old_v.push(hv));
                assert forall|a: int, b: int| 0 <= a < b < vv.len() implies #[trigger] vv[a].0
                    != #[trigger] vv[b].0 by {
                    if b < old_v.len() {
                        assert(vv[a] == old_v[a] && vv[b] == old_v[b]);
                    } else {
                        assert(vv[a] == old_v[a]);
                    }
                }
                self.servers = v;
                assert(self@[old_v.len() as int].0 == hv.0);
            },
        }
        let ghost nv = self@;
        assert(server_on(nv, hv.0) == Some(hv));
        assert forall|p: u16| p != hv.0 implies server_on(nv, p) == server_on(old_v, p) by {
            if exists|k: int| 0 <= k < old_v.len() && old_v[k].0 == p {
                let k = choose|k: int| 0 <= k < old_v.len() && old_v[k].0 == p;
                assert(nv[k] == old_v[k]);
            }
            if exists|k: int| 0 <= k < nv.len() && nv[k].0 == p {
                let k = choose|k: int| 0 <= k < nv.len() && nv[k].0 == p;
                assert(k < old_v.len() && old_v[k] == nv[k]);
            }
        }
    }

    /// Stops tracking the server on `port`; an error when none runs there.
    pub fn stop_server(&mut self, port: u16) -> (r: Result<(), ForgeError>)
        ensures
            server_on(old(self)@, port) is Some <==> r is Ok,
            r is Ok ==> server_on(final(self)@, port) is None,
            r is Ok ==> forall|p: u16| p != port ==> server_on(final(self)@, p) == server_on(old(self)@, p),
            r is Err ==> final(self)@ == old(self)@ && (r matches Err(ForgeError::InvalidArgument(m))
                && m@ == "No active server found on port "@ + decimal(port as nat)),
    {
        proof {
            use_type_invariant(&*self);
        }
        match self.position(port) {
            None => {
                let mut m = to_owned_string("No active server found on port ");
                push_decimal(&mut m, port as u64);
                Err(ForgeError::InvalidArgument(m))
            },
            Some(i) => {
                let ghost old_v = self@;
                let mut v: Vec<ServerHandle> = Vec::new();
                std::mem::swap(&mut v, &mut self.servers);
                v.remove(i);
                let ghost vv = v@.map_values(|h: ServerHandle| handle_view(h));
                assert(vv =~= old_v.remove(i as int));
                assert forall|a: int, b: int| 0 <= a < b < vv.len() implies #[trigger] vv[a].0
                    != #[trigger] vv[b].0 by {
                    if b < i {
                        assert(vv[a] == old_v[a] && vv[b] == old_v[b]);
                    } else if a < i {
                        assert(vv[a] == old_v[a] && vv[b] == old_v[b + 1]);
                    } else {
                        assert(vv[a] == old_v[a + 1] && vv[b] == old_v[b + 1]);
                    }
                }
                self.servers = v;
                let ghost nv = self@;
                assert(nv == vv);
                assert forall|p: u16| p != port implies server_on(nv, p) == server_on(old_v, p) by {
                    if exists|k: int| 0 <= k < old_v.len() && old_v[k].0 == p {
                        let k = choose|k: int| 0 <= k < old_v.len() && old_v[k].0 == p;
                        if k < i {
                            assert(nv[k] == old_v[k]);
                        } else {
                            assert(nv[k - 1] == old_v[k]);
                        }
                    }
                    if exists|k: int| 0 <= k < nv.len() && nv[k].0 == p {
                        let k = choose|k: int| 0 <= k < nv.len() && nv[k].0 == p;
                        if k < i {
                            assert(old_v[k] == nv[k]);
                        } else {
                            assert(old_v[k + 1] == nv[k]);
                        }
                    }
                }
                Ok(())
            },
        }
    }

    /// The running servers.
    pub fn active_servers(&self) -> (r: Vec<ServerHandle>)
        ensures
            r@.map_values(|h: ServerHandle| handle_view(h)) == self@,
    {
        let mut out: Vec<ServerHandle> = Vec::new();
        let mut i: usize = 0;
        while i < self.servers.len()
            invariant
                i <= self.servers@.len(),
                out@.map_values(|h: ServerHandle| handle_view(h)) == self@.take(i as int),
            decreases self.servers.len() - i,
        {
            let ghost before = out@.map_values(|h: ServerHandle| handle_view(h));
            out.push(copy_handle(&self.servers[i]));
            assert(out@.map_values(|h: ServerHandle| handle_view(h)) =~= before.push(self@[i as int]));
            assert(self@.take(i + 1) =~= self@.take(i as int).push(self@[i as int]));
            i = i + 1;
        }
        assert(self@.take(self@.len() as int) =~= self@);
        out
    }
}

} // verus!
