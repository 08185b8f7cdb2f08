//! ICE server configuration, and the order in which it is handed to the
//! browser's peer-connection configuration.
use vstd::prelude::*;

verus! {

/// One ICE (STUN or TURN) server.
#[derive(Clone, Debug)]
pub struct IceServer {
    pub urls: Vec<String>,
    pub username: Option<String>,
    pub credential: Option<String>,
}

/// ICE server configuration. There are no defaults: the servers must be given.
#[derive(Clone, Debug)]
pub struct IceConfig {
    pub ice_servers: Vec<IceServer>,
}

/// What an ICE server is, as text.
#[verifier::ext_equal]
pub struct IceServerModel {
    pub urls: Seq<Seq<char>>,
    pub username: Option<Seq<char>>,
    pub credential: Option<Seq<char>>,
}

/// The text of an optional string.
pub open spec fn opt_text(o: Option<String>) -> Option<Seq<char>> {
    match o {
        Some(s) => Some(s@),
        None => None,
    }
}

impl View for IceServer {
    type V = IceServerModel;

    open spec fn view(&self) -> IceServerModel {
        IceServerModel {
            urls: self.urls@.map_values(|u: String| u@),
            username: opt_text(self.username),
            credential: opt_text(self.credential),
        }
    }
}

impl View for IceConfig {
    type V = Seq<IceServerModel>;

    open spec fn view(&self) -> Seq<IceServerModel> {
        self.ice_servers@.map_values(|s: IceServer| s@)
    }
}

/// One call made while filling in the browser's RTC configuration.
#[derive(Clone, Debug)]
pub enum RtcConfigStep {
    /// Start a new ICE server entry.
    BeginServer,
    /// Append a URL to the current entry's URL list.
    AddUrl(String),
    /// Set the current entry's username.
    SetUsername(String),
    /// Set the current entry's credential.
    SetCredential(String),
    /// Append the current entry to the configuration's server list.
    EndServer,
}

/// An RTC configuration step, as text.
pub enum RtcConfigStepModel {
    BeginServer,
    AddUrl(Seq<char>),
    SetUsername(Seq<char>),
    SetCredential(Seq<char>),
    EndServer,
}

impl View for RtcConfigStep {
    type V = RtcConfigStepModel;

    open spec fn view(&self) -> RtcConfigStepModel {
        match self {
            RtcConfigStep::BeginServer => RtcConfigStepModel::BeginServer,
            RtcConfigStep::AddUrl(u) => RtcConfigStepModel::AddUrl(u@),
            RtcConfigStep::SetUsername(u) => RtcConfigStepModel::SetUsername(u@),
            RtcConfigStep::SetCredential(c) => RtcConfigStepModel::SetCredential(c@),
            RtcConfigStep::EndServer => RtcConfigStepModel::EndServer,
        }
    }
}

/// The steps of a sequence of exec steps.
pub open spec fn steps_view(v: Seq<RtcConfigStep>) -> Seq<RtcConfigStepModel> {
    v.map_values(|s: RtcConfigStep| s@)
}

/// The URL steps of a server: one per URL, in order.
pub open spec fn url_steps(urls: Seq<Seq<char>>) -> Seq<RtcConfigStepModel> {
    urls.map_values(|u: Seq<char>| RtcConfigStepModel::AddUrl(u))
}

/// The username step of a server: present exactly when it has a username.
pub open spec fn username_steps(o: Option<Seq<char>>) -> Seq<RtcConfigStepModel> {
    match o {
        Some(u) => seq![RtcConfigStepModel::SetUsername(u)],
        None => Seq::empty(),
    }
}

/// The credential step of a server: present exactly when it has a credential.
pub open spec fn credential_steps(o: Option<Seq<char>>) -> Seq<RtcConfigStepModel> {
    match o {
        Some(c) => seq![RtcConfigStepModel::SetCredential(c)],
        None => Seq::empty(),
    }
}

/// The steps for one server: begin, its URLs in order, its username and
/// credential where it has them, end.
pub open spec fn server_steps(m: IceServerModel) -> Seq<RtcConfigStepModel> {
    seq![RtcConfigStepModel::BeginServer] + url_steps(m.urls) + username_steps(m.username)
        + credential_steps(m.credential) + seq![RtcConfigStepModel::EndServer]
}

/// The steps for a list of servers: each server's steps, in the list's order.
pub open spec fn config_steps(servers: Seq<IceServerModel>) -> Seq<RtcConfigStepModel>
    decreases servers.len(),
{
    if servers.len() == 0 {
        Seq::empty()
    } else {
        config_steps(servers.drop_last()) + server_steps(servers.last())
    }
}

fn push_step(steps: &mut Vec<RtcConfigStep>, step: RtcConfigStep)
    ensures
        steps_view(final(steps)@) == steps_view(old(steps)@).push(step@),
{
    let ghost before = steps@;
    steps.push(step);
    assert(steps_view(steps@) =~= steps_view(before).push(step@));
}

fn text_copy(s: &String) -> (r: String)
    ensures
        r@ == s@,
{
    s.clone()
}

/// The steps that fill in one server's entry.
fn push_server_steps(steps: &mut Vec<RtcConfigStep>, server: &IceServer)
    ensures
        steps_view(final(steps)@) == steps_view(old(steps)@) + server_steps(server@),
{
    let ghost start = steps_view(steps@);
    let ghost m = server@;
    push_step(steps, RtcConfigStep::BeginServer);
    let n: usize = server.urls.len();
    for j in 0..n
        invariant
            n == server.urls@.len(),
            m == server@,
            steps_view(steps@) == start + seq![RtcConfigStepModel::BeginServer] + url_steps(
                m.urls.take(j as int),
            ),
    {
        let url = text_copy(&server.urls[j]);
        push_step(steps, RtcConfigStep::AddUrl(url));
        assert(url_steps(m.urls.take(j + 1)) =~= url_steps(m.urls.take(j as int)).push(
            RtcConfigStepModel::AddUrl(m.urls[j as int]),
        ));
    }
    assert(m.urls.take(n as int) =~= m.urls);
    match &server.username {
        Some(u) => {
            push_step(steps, RtcConfigStep::SetUsername(text_copy(u)));
        },
        None => {},
    }
    match &server.credential {
        Some(c) => {
            push_step(steps, RtcConfigStep::SetCredential(text_copy(c)));
        },
        None => {},
    }
    push_step(steps, RtcConfigStep::EndServer);
    assert(steps_view(steps@) =~= start + server_steps(m));
}

/// The calls that build the browser's RTC configuration from `config`: for
/// each server in order, begin an entry, add its URLs in order, set the
/// username and the credential where present, and end the entry.
pub fn rtc_config_steps(config: &IceConfig) -> (steps: Vec<RtcConfigStep>)
    ensures
        steps_view(steps@) == config_steps(config@),
        configured_servers(steps_view(steps@)) == Some(config@),
{
    let mut steps: Vec<RtcConfigStep> = Vec::new();
    let n: usize = config.ice_servers.len();
    assert(steps_view(steps@) =~= Seq::empty());
    for i in 0..n
        invariant
            n == config.ice_servers@.len(),
            steps_view(steps@) == config_steps(config@.take(i as int)),
    {
        push_server_steps(&mut steps, &config.ice_servers[i]);
        assert(config@.take(i + 1).drop_last() =~= config@.take(i as int));
    }
    assert(config@.take(n as int) =~= config@);
    proof {
        config_steps_configure(config@);
    }
    steps
}

fn opt_copy(o: &Option<String>) -> (r: Option<String>)
    ensures
        opt_text(r) == opt_text(*o),
{
    match o {
        Some(s) => Some(text_copy(s)),
        None => None,
    }
}

impl IceServer {
    /// A copy of this server entry with the same text.
    pub fn duplicate(&self) -> (r: IceServer)
        ensures
            r@ == self@,
    {
        let mut urls: Vec<String> = Vec::new();
        let n: usize = self.urls.len();
        for j in 0..n
            invariant
                n == self.urls@.len(),
                urls@.map_values(|u: String| u@) == self@.urls.take(j as int),
        {
            let ghost before = urls@;
            urls.push(text_copy(&self.urls[j]));
            assert(urls@.map_values(|u: String| u@) =~= before.map_values(|u: String| u@).push(
                self.urls@[j as int]@,
            ));
            assert(self@.urls.take(j + 1) =~= self@.urls.take(j as int).push(self@.urls[j as int]));
        }
        assert(self@.urls.take(n as int) =~= self@.urls);
        let r = IceServer {
            urls,
            username: opt_copy(&self.username),
            credential: opt_copy(&self.credential),
        };
        assert(r@.urls =~= self@.urls);
        r
    }
}

impl IceConfig {
    /// A copy of this configuration with the same servers, in the same order.
    pub fn duplicate(&self) -> (r: IceConfig)
        ensures
            r@ == self@,
    {
        let mut servers: Vec<IceServer> = Vec::new();
        let n: usize = self.ice_servers.len();
        for i in 0..n
            invariant
                n == self.ice_servers@.len(),
                servers@.map_values(|s: IceServer| s@) == self@.take(i as int),
        {
            let ghost before = servers@;
            servers.push(self.ice_servers[i].duplicate());
            assert(servers@.map_values(|s: IceServer| s@) =~= before.map_values(|s: IceServer| s@).push(
                self.ice_servers@[i as int]@,
            ));
            assert(self@.take(i + 1) =~= self@.take(i as int).push(self@[i as int]));
        }
        assert(self@.take(n as int) =~= self@);
        let r = IceConfig { ice_servers: servers };
        assert(r@ =~= self@);
        r
    }
}

/// A browser configuration being filled in by the steps: the server entry
/// begun and not yet ended, and the servers appended so far.
#[verifier::ext_equal]
pub struct ConfigBuild {
    pub current: Option<IceServerModel>,
    pub servers: Seq<IceServerModel>,
}

/// A server entry just begun: no URLs, no username, no credential.
pub open spec fn blank_server() -> IceServerModel {
    IceServerModel { urls: Seq::empty(), username: None, credential: None }
}

/// Performs one step on the configuration being filled in, the way the
/// browser's configuration object is built: a URL, username or credential
/// goes to the entry begun, and ending the entry appends it to the server
/// list. `None` when the step does not fit: an entry begun inside another,
/// an entry field set outside an entry, a username or credential set twice.
pub open spec fn perform_step(b: ConfigBuild, step: RtcConfigStepModel) -> Option<ConfigBuild> {
    match step {
        RtcConfigStepModel::BeginServer => match b.current {
            None => Some(ConfigBuild { current: Some(blank_server()), servers: b.servers }),
            Some(_) => None,
        },
        RtcConfigStepModel::AddUrl(u) => match b.current {
            Some(c) => Some(ConfigBuild {
                current: Some(IceServerModel { urls: c.urls.push(u), ..c }),
                servers: b.servers,
            }),
            None => None,
        },
        RtcConfigStepModel::SetUsername(u) => match b.current {
            Some(c) => if c.username is None {
                Some(ConfigBuild {
                    current: Some(IceServerModel { username: Some(u), ..c }),
                    servers: b.servers,
                })
            } else {
                None
            },
            None => None,
        },
        RtcConfigStepModel::SetCredential(x) => match b.current {
            Some(c) => if c.credential is None {
                Some(ConfigBuild {
                    current: Some(IceServerModel { credential: Some(x), ..c }),
                    servers: b.servers,
                })
            } else {
                None
            },
            None => None,
        },
        RtcConfigStepModel::EndServer => match b.current {
            Some(c) => Some(ConfigBuild { current: None, servers: b.servers.push(c) }),
            None => None,
        },
    }
}

/// Performs the steps in order; `None` as soon as one does not fit.
pub open spec fn perform_steps(b: ConfigBuild, steps: Seq<RtcConfigStepModel>) -> Option<ConfigBuild>
    decreases steps.len(),
{
    if steps.len() == 0 {
        Some(b)
    } else {
        match perform_step(b, steps[0]) {
            Some(next) => perform_steps(next, steps.drop_first()),
            None => None,
        }
    }
}

/// The ICE servers that a browser configuration holds once all the steps are
/// performed on an empty one; `None` when a step does not fit or an entry is
/// left unended.
pub open spec fn configured_servers(steps: Seq<RtcConfigStepModel>) -> Option<Seq<IceServerModel>> {
    match perform_steps(ConfigBuild { current: None, servers: Seq::empty() }, steps) {
        Some(b) => if b.current is None {
            Some(b.servers)
        } else {
            None
        },
        None => None,
    }
}

proof fn perform_concat(b: ConfigBuild, x: Seq<RtcConfigStepModel>, y: Seq<RtcConfigStepModel>)
    ensures
        perform_steps(b, x + y) == match perform_steps(b, x) {
            Some(mid) => perform_steps(mid, y),
            None => None,
        },
    decreases x.len(),
{
    if x.len() == 0 {
        assert(x + y =~= y);
    } else {
        assert((x + y)[0] == x[0]);
        assert((x + y).drop_first() =~= x.drop_first() + y);
        if let Some(next) = perform_step(b, x[0]) {
            perform_concat(next, x.drop_first(), y);
        }
    }
}

proof fn perform_urls(c: IceServerModel, servers: Seq<IceServerModel>, urls: Seq<Seq<char>>)
    ensures
        perform_steps(ConfigBuild { current: Some(c), servers }, url_steps(urls)) == Some(
            ConfigBuild { current: Some(IceServerModel { urls: c.urls + urls, ..c }), servers },
        ),
    decreases urls.len(),
{
    if urls.len() == 0 {
        assert(url_steps(urls) =~= Seq::<RtcConfigStepModel>::empty());
        assert(c.urls + urls =~= c.urls);
        assert(IceServerModel { urls: c.urls + urls, ..c } =~= c);
    } else {
        let c1 = IceServerModel { urls: c.urls.push(urls[0]), ..c };
        assert(url_steps(urls)[0] == RtcConfigStepModel::AddUrl(urls[0]));
        assert(url_steps(urls).drop_first() =~= url_steps(urls.drop_first()));
        perform_urls(c1, servers, urls.drop_first());
        assert(c1.urls + urls.drop_first() =~= c.urls + urls);
    }
}

proof fn perform_server(servers: Seq<IceServerModel>, m: IceServerModel)
    ensures
        perform_steps(ConfigBuild { current: None, servers }, server_steps(m)) == Some(
            ConfigBuild { current: None, servers: servers.push(m) },
        ),
{
    let b0 = ConfigBuild { current: None, servers };
    let begin = seq![RtcConfigStepModel::BeginServer];
    let urls = url_steps(m.urls);
    let user = username_steps(m.username);
    let cred = credential_steps(m.credential);
    let end = seq![RtcConfigStepModel::EndServer];
    reveal_with_fuel(perform_steps, 2);
    let b1 = ConfigBuild { current: Some(blank_server()), servers };
    assert(perform_steps(b0, begin) == Some(b1));
    perform_concat(b0, begin, urls);
    perform_urls(blank_server(), servers, m.urls);
    let c2 = IceServerModel { urls: Seq::<Seq<char>>::empty() + m.urls, ..blank_server() };
    let b2 = ConfigBuild { current: Some(c2), servers };
    assert(perform_steps(b0, begin + urls) == Some(b2));
    perform_concat(b0, begin + urls, user);
    let c3 = IceServerModel { username: m.username, ..c2 };
    let b3 = ConfigBuild { current: Some(c3), servers };
    assert(perform_steps(b2, user) == Some(b3));
    perform_concat(b0, begin + urls + user, cred);
    let c4 = IceServerModel { credential: m.credential, ..c3 };
    let b4 = ConfigBuild { current: Some(c4), servers };
    assert(perform_steps(b3, cred) == Some(b4));
    perform_concat(b0, begin + urls + user + cred, end);
    assert(c4 =~= m);
    assert(perform_steps(b4, end) == Some(ConfigBuild { current: None, servers: servers.push(m) }));
}

/// Performing the steps for a list of servers on an empty browser
/// configuration gives exactly that list of servers.
proof fn config_steps_configure(servers: Seq<IceServerModel>)
    ensures
        perform_steps(ConfigBuild { current: None, servers: Seq::empty() }, config_steps(servers))
            == Some(ConfigBuild { current: None, servers }),
        configured_servers(config_steps(servers)) == Some(servers),
    decreases servers.len(),
{
    let empty = ConfigBuild { current: None, servers: Seq::<IceServerModel>::empty() };
    if servers.len() == 0 {
        assert(perform_steps(empty, Seq::<RtcConfigStepModel>::empty()) == Some(empty));
        assert(empty =~= ConfigBuild { current: None, servers });
    } else {
        config_steps_configure(servers.drop_last());
        perform_concat(empty, config_steps(servers.drop_last()), server_steps(servers.last()));
        perform_server(servers.drop_last(), servers.last());
        assert(servers.drop_last().push(servers.last()) =~= servers);
    }
}

/// The configuration steps put every configured ICE server into the
/// browser's configuration, and nothing else: performed in order on an empty
/// configuration, they fit, leave no entry open, and give back exactly the
/// servers of `config`, in order, each with all its URLs in order, and with
/// its username and credential exactly where it has them. The same holds of
/// the steps that `rtc_config_steps` returns (its `ensures`).
pub proof fn configuration_steps_round_trip(config: IceConfig)
    ensures
        configured_servers(config_steps(config@)) == Some(config@),
{
    config_steps_configure(config@);
}

} // verus!
