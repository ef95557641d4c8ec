use std::rc::Rc;

use honey_badger::{Engine, Server};

#[derive(Debug, Default, PartialEq)]
struct NamedEngine(String);

impl Engine for NamedEngine {
    fn run(&self, image: &str) -> Result<(), String> {
        if image.is_empty() {
            Err(format!("{}: no image", self.0))
        } else {
            Ok(())
        }
    }
}

#[test]
fn built_servers_share_the_engine() {
    let rkt = Rc::new(NamedEngine("rkt".to_string()));
    let mut server: Server<NamedEngine> = Server::new();
    let built = server.init_engine(rkt.clone()).build();
    // the two servers and `rkt` hold the same engine
    assert_eq!(Rc::strong_count(&rkt), 3);
    drop(built);
    assert_eq!(Rc::strong_count(&rkt), 2);
    assert!(rkt.run("alpine").is_ok());
    assert_eq!(rkt.run(""), Err("rkt: no image".to_string()));
}
