use std::cell::Cell;
use std::rc::Rc;
use std::time::Duration;

use rsc2::agent::{Agent, NewAgent};
use rsc2::api::raw::{NewRawAgent, RawAgent, RawProducer, RawRequestGame};
use rsc2::default::DefaultConfig;
use rsc2::error::{Cause, Error};
use rsc2::hook::{AgentHook, NextRequest, Producer};
use rsc2::protocol::request::Request as rRequest;
use rsc2::protocol::response::Response as rResponse;
use rsc2::protocol::{
    Request, RequestAction, RequestCreateGame, RequestGameInfo, RequestJoinGame,
    RequestObservation, RequestPing, RequestStartReplay, Response, ResponseGameInfo,
    ResponseObservation, Status,
};
use rsc2::runtime::channel::Poll;
use rsc2::runtime::commands::{CommandKind, Endpoint};
use rsc2::runtime::coordinator::{Outcome, Pending, Step};
use rsc2::runtime::ingame::{InGameRessource, Progress};
use rsc2::runtime::state::PhaseFlags;
use rsc2::runtime::{Builder, Commands, Coordinator};

struct MockAgent;

impl RawAgent for MockAgent {
    fn on_start(&mut self, _: Response) -> NextRequest {
        NextRequest::Observation
    }
    fn on_response(&mut self, _: Response) -> NextRequest {
        NextRequest::Observation
    }
    fn on_end(&mut self) {}
}

#[test]
fn test_build() {
    // faster Coordinator that can handle more work
    let _: Coordinator<NewRawAgent<MockAgent>> = Builder::new()
        .interval(Duration::from_micros(100))
        .core_threads(16)
        .build();
}

#[test]
fn builder_keeps_what_was_asked_for_and_resets() {
    let mut builder = Builder::new();
    let first: Coordinator<NewRawAgent<MockAgent>> = builder
        .interval(Duration::from_micros(100))
        .core_threads(16)
        .build();
    assert_eq!(first.interval(), Some(Duration::from_micros(100)));
    assert_eq!(first.core_threads(), 16);
    let second: Coordinator<NewRawAgent<MockAgent>> = builder.build();
    assert_eq!(second.interval(), None);
    assert_eq!(second.core_threads(), 4);
    let third: Coordinator<NewRawAgent<MockAgent>> = Coordinator::new();
    assert_eq!(third.interval(), None);
    assert_eq!(third.core_threads(), 4);
    assert_eq!(third.count(), 0);
    assert_eq!(third.pending(), Pending::Idle);
}

/// Counts the calls of its hooks, and answers as it is told.
#[derive(Debug, Clone)]
struct Counting {
    starts: Rc<Cell<u32>>,
    steps: Rc<Cell<u32>>,
    closes: Rc<Cell<u32>>,
    defer: bool,
}

impl Counting {
    fn new(defer: bool) -> Self {
        Counting {
            starts: Rc::new(Cell::new(0)),
            steps: Rc::new(Cell::new(0)),
            closes: Rc::new(Cell::new(0)),
            defer,
        }
    }
}

struct Pings;

impl Producer for Pings {
    fn next(&mut self) -> rRequest {
        rRequest::Ping(RequestPing {})
    }
}

impl AgentHook for Counting {
    type Producer = Pings;

    fn on_start_hook(&mut self) -> NextRequest {
        self.starts.set(self.starts.get() + 1);
        if self.defer {
            NextRequest::Observation
        } else {
            NextRequest::Agent(rRequest::GameInfo(RequestGameInfo {}))
        }
    }

    fn on_step_hook(&mut self, _: Response) -> NextRequest {
        self.steps.set(self.steps.get() + 1);
        if self.defer {
            NextRequest::Observation
        } else {
            NextRequest::Agent(rRequest::Observation(RequestObservation::nofog(7)))
        }
    }

    fn on_close_hook(&mut self) {
        self.closes.set(self.closes.get() + 1);
    }

    fn build_producer() -> Pings {
        Pings
    }
}

fn local() -> Endpoint {
    Endpoint { ip: (127, 0, 0, 1), port: 5000 }
}

fn response(id: u32, status: Status) -> Response {
    Response { id: Some(id), status: Some(status), response: None, error: vec![] }
}

fn launched(agent_defers: bool) -> (Coordinator<Counting>, Counting) {
    let mut coordinator = Coordinator::new();
    assert_eq!(
        coordinator.begin(Commands::Launched { socket: local() }),
        Ok(Step::Connect(local()))
    );
    assert_eq!(coordinator.pending(), Pending::Connecting);
    assert_eq!(coordinator.connected(Ok(())), Ok(()));
    assert_eq!(coordinator.pending(), Pending::Idle);
    (coordinator, Counting::new(agent_defers))
}

fn handshake(
    coordinator: &mut Coordinator<Counting>,
    command: Commands<Counting>,
    id: u32,
    status: Status,
) -> Poll<Result<Outcome, Error>> {
    assert_eq!(coordinator.begin(command), Ok(Step::Handshake(id)));
    let sent = coordinator.take_outbound();
    assert_eq!(sent.len(), 1);
    assert_eq!(sent[0].id, Some(id));
    coordinator.deliver(Ok(response(id, status)));
    coordinator.poll_handshake()
}

fn only(flags: &[&str]) -> PhaseFlags {
    PhaseFlags {
        launched: flags.contains(&"launched"),
        initializing: flags.contains(&"initializing"),
        in_replay: flags.contains(&"in_replay"),
        in_game: flags.contains(&"in_game"),
        ended: flags.contains(&"ended"),
    }
}

#[test]
fn one_game_sends_four_requests() {
    let (mut coordinator, agent) = launched(false);
    assert_eq!(coordinator.flags(), only(&["launched"]));
    assert_eq!(coordinator.count(), 0);

    let create = RequestCreateGame::default_config();
    assert_eq!(
        handshake(&mut coordinator, Commands::CreateGame { request: create }, 1, Status::InitGame),
        Poll::Ready(Ok(Outcome::Done))
    );
    assert_eq!(coordinator.flags(), only(&["launched", "initializing"]));

    let join = RequestJoinGame::default_config();
    assert_eq!(
        handshake(
            &mut coordinator,
            Commands::JoinGame { agent: agent.clone(), request: join },
            2,
            Status::InGame
        ),
        Poll::Ready(Ok(Outcome::Play))
    );
    assert_eq!(coordinator.pending(), Pending::Play);
    assert_eq!(coordinator.flags(), only(&["launched", "initializing", "in_game"]));

    let mut game = coordinator.play_game().unwrap();
    assert_eq!(coordinator.pending(), Pending::Playing);
    assert_eq!(agent.starts.get(), 1);
    let sent = game.take_outbound();
    assert_eq!(
        sent,
        vec![Request { id: Some(3), request: Some(rRequest::GameInfo(RequestGameInfo {})) }]
    );
    assert!(game.tick());
    assert_eq!(game.step(), Poll::Pending);
    game.deliver(Ok(response(3, Status::Ended)));
    assert_eq!(game.step(), Poll::Ready(Progress::Ended));
    assert!(!game.tick());
    assert!(game.is_cancelled());
    assert!(game.take_outbound().is_empty());
    assert_eq!(agent.steps.get(), 0);

    assert_eq!(coordinator.end_game(game), Ok(3));
    assert_eq!(agent.closes.get(), 1);
    assert_eq!(coordinator.flags(), only(&["launched", "initializing", "in_game", "ended"]));

    assert_eq!(
        handshake(&mut coordinator, Commands::LeaveGame, 4, Status::Launched),
        Poll::Ready(Ok(Outcome::Done))
    );
    assert_eq!(coordinator.flags(), only(&["launched"]));
    assert_eq!(coordinator.count(), 4);
    assert_eq!(coordinator.pending(), Pending::Idle);
}

#[test]
fn create_before_launch_sends_nothing() {
    let mut coordinator: Coordinator<Counting> = Coordinator::new();
    let refused =
        coordinator.begin(Commands::CreateGame { request: RequestCreateGame::default_config() });
    assert_eq!(refused, Err(Error::InvalidTransition(Cause::NotLaunched)));
    assert!(coordinator.take_outbound().is_empty());
    assert_eq!(coordinator.count(), 0);
    assert_eq!(coordinator.flags(), only(&[]));
    assert_eq!(coordinator.pending(), Pending::Idle);
}

#[test]
fn join_while_in_game_is_refused() {
    let (mut coordinator, agent) = launched(true);
    assert_eq!(
        handshake(
            &mut coordinator,
            Commands::JoinGame { agent: agent.clone(), request: RequestJoinGame::default_config() },
            1,
            Status::InGame
        ),
        Poll::Ready(Ok(Outcome::Play))
    );
    let mut game = coordinator.play_game().unwrap();
    assert_eq!(game.take_outbound().len(), 1);
    game.deliver(Ok(response(2, Status::Ended)));
    assert_eq!(game.step(), Poll::Ready(Progress::Ended));
    assert_eq!(coordinator.end_game(game), Ok(2));
    assert!(coordinator.flags().in_game);

    let again = coordinator
        .begin(Commands::JoinGame { agent, request: RequestJoinGame::default_config() });
    assert_eq!(again, Err(Error::InvalidTransition(Cause::JoinWhileRunning)));
    assert!(coordinator.take_outbound().is_empty());
    assert_eq!(coordinator.count(), 2);
}

#[test]
fn wrong_status_aborts_the_run() {
    let (mut coordinator, _) = launched(true);
    assert_eq!(
        handshake(
            &mut coordinator,
            Commands::CreateGame { request: RequestCreateGame::default_config() },
            1,
            Status::Launched
        ),
        Poll::Ready(Err(Error::UnexpectedStatus {
            expected: Status::InitGame,
            found: Some(Status::Launched)
        }))
    );
    assert_eq!(coordinator.pending(), Pending::Aborted);
    assert_eq!(coordinator.flags(), only(&["launched"]));
    assert_eq!(
        coordinator.begin(Commands::QuitGame),
        Err(Error::InvalidTransition(Cause::Aborted))
    );
}

#[test]
fn unknown_status_aborts_the_handshake() {
    let (mut coordinator, _) = launched(true);
    assert_eq!(
        handshake(&mut coordinator, Commands::QuitGame, 1, Status::Unknown),
        Poll::Ready(Err(Error::UnexpectedStatus {
            expected: Status::Quit,
            found: Some(Status::Unknown)
        }))
    );
    let (mut coordinator, _) = launched(true);
    assert_eq!(coordinator.begin(Commands::QuitGame), Ok(Step::Handshake(1)));
    coordinator.deliver(Ok(Response { id: Some(1), status: None, response: None, error: vec![] }));
    assert_eq!(
        coordinator.poll_handshake(),
        Poll::Ready(Err(Error::UnexpectedStatus { expected: Status::Quit, found: None }))
    );
}

#[test]
fn closed_stream_disconnects_the_handshake() {
    let (mut coordinator, _) = launched(true);
    assert_eq!(
        coordinator.begin(Commands::CreateGame { request: RequestCreateGame::default_config() }),
        Ok(Step::Handshake(1))
    );
    assert_eq!(coordinator.poll_handshake(), Poll::Pending);
    coordinator.deliver(Ok(response(9, Status::InitGame)));
    assert_eq!(coordinator.poll_handshake(), Poll::Pending);
    coordinator.close();
    assert_eq!(coordinator.poll_handshake(), Poll::Ready(Err(Error::Disconnected)));
    assert_eq!(coordinator.pending(), Pending::Aborted);
}

#[test]
fn transport_failure_ends_the_handshake() {
    let (mut coordinator, _) = launched(true);
    assert_eq!(coordinator.begin(Commands::QuitGame), Ok(Step::Handshake(1)));
    coordinator.deliver(Err(Error::TransportError("broken frame".to_string())));
    coordinator.deliver(Ok(response(1, Status::Quit)));
    assert_eq!(
        coordinator.poll_handshake(),
        Poll::Ready(Err(Error::TransportError("broken frame".to_string())))
    );
    assert_eq!(coordinator.pending(), Pending::Aborted);
}

#[test]
fn ended_stops_the_loop_and_hands_everything_back() {
    let (mut coordinator, agent) = launched(true);
    assert_eq!(
        handshake(
            &mut coordinator,
            Commands::StartReplay {
                agent: agent.clone(),
                request: RequestStartReplay::from_file("a.SC2Replay".to_string())
            },
            1,
            Status::InReplay
        ),
        Poll::Ready(Ok(Outcome::Play))
    );
    assert_eq!(coordinator.flags(), only(&["launched", "in_replay"]));
    // While the game loop holds the resources the coordinator has none.
    let mut game = coordinator.play_game().unwrap();
    assert!(matches!(
        coordinator.play_game(),
        Err(Error::InvalidTransition(Cause::OutOfOrder))
    ));
    assert!(coordinator.take_outbound().is_empty());
    assert_eq!(
        coordinator.begin(Commands::QuitGame),
        Err(Error::InvalidTransition(Cause::Busy))
    );

    // The agent defers, so the producer supplies the requests.
    assert_eq!(
        game.take_outbound(),
        vec![Request { id: Some(2), request: Some(rRequest::Ping(RequestPing {})) }]
    );
    game.deliver(Ok(response(2, Status::InReplay)));
    assert!(game.tick());
    assert_eq!(game.step(), Poll::Ready(Progress::Sent(3)));
    assert_eq!(agent.steps.get(), 1);
    game.deliver(Ok(response(3, Status::InReplay)));
    assert_eq!(game.step(), Poll::Ready(Progress::Sent(4)));
    assert_eq!(game.take_outbound().len(), 2);
    game.deliver(Ok(response(4, Status::Ended)));
    assert!(game.tick());
    assert_eq!(game.step(), Poll::Ready(Progress::Ended));
    assert!(!game.tick());
    assert_eq!(agent.steps.get(), 2);
    assert_eq!(agent.closes.get(), 0);

    assert_eq!(coordinator.end_game(game), Ok(4));
    assert_eq!(agent.closes.get(), 1);
    assert_eq!(agent.starts.get(), 1);
    assert_eq!(coordinator.pending(), Pending::Idle);
    assert_eq!(coordinator.flags(), only(&["launched", "in_replay", "ended"]));

    // The resources are back: the next handshake goes out on the same channel.
    assert_eq!(
        handshake(&mut coordinator, Commands::LeaveGame, 5, Status::Launched),
        Poll::Ready(Ok(Outcome::Done))
    );
    assert_eq!(
        handshake(&mut coordinator, Commands::QuitGame, 6, Status::Quit),
        Poll::Ready(Ok(Outcome::Done))
    );
    assert_eq!(coordinator.flags(), only(&[]));
    assert_eq!(coordinator.count(), 6);
}

#[test]
fn restart_plays_again_with_the_agent_of_the_last_game() {
    let (mut coordinator, agent) = launched(false);
    assert_eq!(
        handshake(
            &mut coordinator,
            Commands::JoinGame { agent: agent.clone(), request: RequestJoinGame::default_config() },
            1,
            Status::InGame
        ),
        Poll::Ready(Ok(Outcome::Play))
    );
    let mut game = coordinator.play_game().unwrap();
    assert_eq!(game.take_outbound().len(), 1);
    game.deliver(Ok(response(2, Status::Ended)));
    assert_eq!(game.step(), Poll::Ready(Progress::Ended));
    assert_eq!(coordinator.end_game(game), Ok(2));
    assert_eq!(
        handshake(&mut coordinator, Commands::RestartGame, 3, Status::InGame),
        Poll::Ready(Ok(Outcome::Play))
    );
    let mut game = coordinator.play_game().unwrap();
    assert_eq!(agent.starts.get(), 2);
    game.deliver(Ok(response(4, Status::InGame)));
    assert_eq!(game.step(), Poll::Ready(Progress::Sent(5)));
    assert_eq!(
        game.take_outbound()[1],
        Request { id: Some(5), request: Some(rRequest::Observation(RequestObservation::nofog(7))) }
    );
    game.deliver(Ok(response(5, Status::Ended)));
    assert_eq!(game.step(), Poll::Ready(Progress::Ended));
    assert_eq!(coordinator.end_game(game), Ok(5));
    assert_eq!(agent.closes.get(), 2);
}

#[test]
fn game_loop_drops_responses_with_other_ids() {
    let (mut coordinator, agent) = launched(true);
    assert_eq!(
        handshake(
            &mut coordinator,
            Commands::JoinGame { agent: agent.clone(), request: RequestJoinGame::default_config() },
            1,
            Status::InGame
        ),
        Poll::Ready(Ok(Outcome::Play))
    );
    let mut game = coordinator.play_game().unwrap();
    assert_eq!(game.count(), 2);
    game.deliver(Ok(response(1, Status::Ended)));
    game.deliver(Ok(Response { id: None, status: Some(Status::Ended), response: None, error: vec![] }));
    assert_eq!(game.step(), Poll::Pending);
    assert!(game.tick());
    assert_eq!(agent.steps.get(), 0);
    // The dropped responses are gone: the matching one is found at once.
    game.deliver(Ok(response(2, Status::InGame)));
    assert_eq!(game.step(), Poll::Ready(Progress::Sent(3)));
}

#[test]
fn game_loop_fails_on_a_closed_or_broken_stream() {
    let (mut coordinator, agent) = launched(true);
    assert_eq!(
        handshake(
            &mut coordinator,
            Commands::JoinGame { agent: agent.clone(), request: RequestJoinGame::default_config() },
            1,
            Status::InGame
        ),
        Poll::Ready(Ok(Outcome::Play))
    );
    let mut game = coordinator.play_game().unwrap();
    game.close();
    assert_eq!(game.step(), Poll::Ready(Progress::Failed(Error::Disconnected)));
    assert!(!game.tick());
    // A later failure does not replace the first.
    game.deliver(Err(Error::TransportError("late".to_string())));
    assert_eq!(
        game.step(),
        Poll::Ready(Progress::Failed(Error::TransportError("late".to_string())))
    );
    assert_eq!(coordinator.end_game(game), Err(Error::Disconnected));
    assert_eq!(agent.closes.get(), 1);
    assert_eq!(coordinator.pending(), Pending::Aborted);
    assert!(!coordinator.flags().ended);
}

#[test]
fn game_loop_can_be_aborted_by_the_caller() {
    let (mut coordinator, agent) = launched(true);
    assert_eq!(
        handshake(
            &mut coordinator,
            Commands::JoinGame { agent: agent.clone(), request: RequestJoinGame::default_config() },
            1,
            Status::InGame
        ),
        Poll::Ready(Ok(Outcome::Play))
    );
    let mut game = coordinator.play_game().unwrap();
    assert!(game.tick());
    game.abort(Error::ExternalFailure("agent gave up".to_string()));
    assert!(!game.tick());
    game.abort(Error::TransportError("later".to_string()));
    assert_eq!(
        coordinator.end_game(game),
        Err(Error::ExternalFailure("agent gave up".to_string()))
    );
    assert_eq!(agent.closes.get(), 1);
    assert_eq!(coordinator.pending(), Pending::Aborted);
}

#[test]
fn reports_out_of_order_are_refused_and_change_nothing() {
    let mut coordinator: Coordinator<Counting> = Coordinator::new();
    assert_eq!(
        coordinator.connected(Ok(())),
        Err(Error::InvalidTransition(Cause::OutOfOrder))
    );
    assert_eq!(
        coordinator.poll_handshake(),
        Poll::Ready(Err(Error::InvalidTransition(Cause::OutOfOrder)))
    );
    assert!(matches!(
        coordinator.play_game(),
        Err(Error::InvalidTransition(Cause::OutOfOrder))
    ));
    coordinator.deliver(Ok(response(1, Status::Launched)));
    coordinator.close();
    assert_eq!(coordinator.pending(), Pending::Idle);
    assert_eq!(coordinator.flags(), only(&[]));
    let stray = InGameRessource::new(rsc2::runtime::channel::Channel::new(), Counting::new(true));
    assert_eq!(
        coordinator.end_game(stray),
        Err(Error::InvalidTransition(Cause::OutOfOrder))
    );
}

#[test]
fn failed_connection_aborts_the_run() {
    let mut coordinator: Coordinator<Counting> = Coordinator::new();
    assert_eq!(
        coordinator.begin(Commands::Launched { socket: local() }),
        Ok(Step::Connect(local()))
    );
    assert_eq!(
        coordinator.connected(Err(Error::TransportError("refused".to_string()))),
        Err(Error::TransportError("refused".to_string()))
    );
    assert_eq!(coordinator.pending(), Pending::Aborted);
    assert!(!coordinator.flags().launched);
}

#[test]
fn counter_goes_on_after_a_new_connection() {
    let (mut coordinator, _) = launched(true);
    assert_eq!(
        handshake(&mut coordinator, Commands::QuitGame, 1, Status::Quit),
        Poll::Ready(Ok(Outcome::Done))
    );
    assert_eq!(coordinator.flags(), only(&[]));
    assert_eq!(
        coordinator.begin(Commands::Launched { socket: local() }),
        Ok(Step::Connect(local()))
    );
    assert_eq!(coordinator.connected(Ok(())), Ok(()));
    assert_eq!(
        handshake(&mut coordinator, Commands::QuitGame, 2, Status::Quit),
        Poll::Ready(Ok(Outcome::Done))
    );
    assert_eq!(coordinator.count(), 2);
}

#[test]
fn raw_request_game_is_one_whole_game() {
    let game = RawRequestGame::new(
        NewRawAgent(MockAgent),
        RequestCreateGame::default_config(),
        RequestJoinGame::default_config(),
    );
    let mut commands = Vec::new();
    for command in game {
        commands.push(command);
    }
    let kinds: Vec<CommandKind> = commands.iter().map(|c| c.kind()).collect();
    let copy: Commands<Counting> = Commands::from(&Commands::<Counting>::LeaveGame);
    assert_eq!(copy.kind(), CommandKind::LeaveGame);
    assert_eq!(
        kinds,
        vec![
            CommandKind::Launched,
            CommandKind::CreateGame,
            CommandKind::JoinGame,
            CommandKind::LeaveGame,
            CommandKind::QuitGame
        ]
    );
    match &commands[0] {
        Commands::Launched { socket } => assert_eq!(*socket, local()),
        _ => panic!("the first command connects"),
    }
    match &commands[1] {
        Commands::CreateGame { request } => {
            assert_eq!(*request, RequestCreateGame::default_config())
        }
        _ => panic!("the second command creates the game"),
    }
}

#[test]
fn raw_agent_asks_for_the_game_info_first_and_routes_responses() {
    struct Routed(Vec<&'static str>);
    impl RawAgent for Routed {
        fn on_start(&mut self, _: Response) -> NextRequest {
            self.0.push("start");
            NextRequest::Observation
        }
        fn on_response(&mut self, _: Response) -> NextRequest {
            self.0.push("response");
            NextRequest::Agent(rRequest::Ping(RequestPing {}))
        }
        fn on_end(&mut self) {
            self.0.push("end");
        }
    }
    let mut agent = NewRawAgent(Routed(vec![]));
    assert!(matches!(
        agent.on_start_hook(),
        NextRequest::Agent(rRequest::GameInfo(RequestGameInfo {}))
    ));
    let info = Response {
        id: Some(1),
        status: Some(Status::InGame),
        response: Some(rResponse::GameInfo(ResponseGameInfo { encoded: vec![1, 2] })),
        error: vec![],
    };
    assert!(matches!(agent.on_step_hook(info), NextRequest::Observation));
    assert!(matches!(
        agent.on_step_hook(response(2, Status::InGame)),
        NextRequest::Agent(rRequest::Ping(_))
    ));
    agent.on_close_hook();
    assert_eq!(agent.0 .0, vec!["start", "response", "end"]);
}

#[test]
fn agent_answers_observations_and_game_info_with_actions() {
    struct Acting(Vec<&'static str>);
    impl Agent for Acting {
        fn on_start(&mut self, _: &ResponseGameInfo) -> Option<RequestAction> {
            self.0.push("start");
            None
        }
        fn on_step(&mut self, _: &ResponseObservation) -> Option<RequestAction> {
            self.0.push("step");
            Some(RequestAction { actions: vec![vec![1, 2, 3]] })
        }
        fn on_end(&mut self) {
            self.0.push("end");
        }
    }
    let mut agent = NewAgent(Acting(vec![]));
    assert!(matches!(agent.on_start_hook(), NextRequest::Observation));
    let observed = Response {
        id: Some(1),
        status: Some(Status::InGame),
        response: Some(rResponse::Observation(ResponseObservation { observation: None })),
        error: vec![],
    };
    match agent.on_step_hook(observed) {
        NextRequest::Agent(rRequest::Action(request)) => {
            assert_eq!(request.actions, vec![vec![1, 2, 3]])
        }
        _ => panic!("the agent's actions are the next request"),
    }
    let info = Response {
        id: Some(2),
        status: Some(Status::InGame),
        response: Some(rResponse::GameInfo(ResponseGameInfo { encoded: vec![] })),
        error: vec![],
    };
    assert!(matches!(agent.on_step_hook(info), NextRequest::Observation));
    // Any other response leaves the agent alone.
    assert!(matches!(agent.on_step_hook(response(3, Status::InGame)), NextRequest::Observation));
    assert_eq!(agent.0 .0, vec!["step", "start"]);
    agent.on_close_hook();
    assert_eq!(agent.0 .0, vec!["step", "start", "end"]);
    let mut producer = <NewAgent<Acting> as AgentHook>::build_producer();
    assert_eq!(producer.next(), rRequest::Observation(RequestObservation::nofog(0)));
    assert_eq!(producer.next(), rRequest::Observation(RequestObservation::nofog(1)));

    // An agent that says nothing of its own about the start and the end.
    struct Quiet;
    impl Agent for Quiet {
        fn on_step(&mut self, _: &ResponseObservation) -> Option<RequestAction> {
            None
        }
    }
    let mut quiet = Quiet;
    assert_eq!(quiet.on_start(&ResponseGameInfo { encoded: vec![] }), None);
    quiet.on_end();
}

#[test]
fn raw_producer_counts_game_loops_and_wraps() {
    let mut producer: RawProducer = <NewRawAgent<MockAgent> as AgentHook>::build_producer();
    assert_eq!(producer.next(), rRequest::Observation(RequestObservation::nofog(0)));
    assert_eq!(producer.next(), rRequest::Observation(RequestObservation::nofog(1)));
    producer.increment();
    assert_eq!(producer.next(), rRequest::Observation(RequestObservation::nofog(3)));
    let mut fogged = RawProducer::new(RequestObservation { disable_fog: None, game_loop: Some(9) });
    assert_eq!(
        fogged.next(),
        rRequest::Observation(RequestObservation { disable_fog: None, game_loop: Some(0) })
    );
}

#[test]
fn endpoint_url_names_the_api_of_the_instance() {
    assert_eq!(local().url(), "ws://127.0.0.1:5000/sc2api");
    assert_eq!(
        Endpoint { ip: (0, 10, 255, 9), port: 0 }.url(),
        "ws://0.10.255.9:0/sc2api"
    );
    assert_eq!(
        Endpoint { ip: (192, 168, 100, 200), port: 65535 }.url(),
        "ws://192.168.100.200:65535/sc2api"
    );
}
