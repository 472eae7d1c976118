//! The commands of the store's operations.
use super::command::{
    self, add_pairs, command_with_one, command_with_three, command_with_two,
};
use super::insertion;
use super::RedisStore;
use crate::events::{QueueStreamEvent, StreamEventId};
use crate::job::{Job, JobState};
use crate::outside::pipeline::{self, command_of, pipeline_add, pipeline_atomic, pipeline_new};
use crate::queue::{CollectionSuffix, QueueEventMode};
use crate::utils::parse::{self, has_word};
use crate::utils::sequences;
use crate::utils::text::{self, decimal, same_text, signed};
use vstd::prelude::*;

verus! {

/// What a reply says of whether something is there.
#[derive(Debug, Clone, Copy, PartialEq, Eq, Structural)]
pub enum Presence {
    /// It is there unless the reply is nil.
    NotNil,
    /// The reply is the answer.
    Flag,
}

/// Which collections hold their items by score.
pub open spec fn is_scored(col: CollectionSuffix) -> bool {
    col == CollectionSuffix::Completed || col == CollectionSuffix::Delayed || col
        == CollectionSuffix::Failed || col == CollectionSuffix::Prioritized
}

/// Which collections are lists.
pub open spec fn is_list(col: CollectionSuffix) -> bool {
    col == CollectionSuffix::Active || col == CollectionSuffix::Wait || col
        == CollectionSuffix::Paused
}

/// The collections that are dropped when the queue is cleared.
pub open spec fn auxiliary() -> Seq<CollectionSuffix> {
    seq![
        CollectionSuffix::Delayed,
        CollectionSuffix::Wait,
        CollectionSuffix::Active,
        CollectionSuffix::Completed,
        CollectionSuffix::Failed,
        CollectionSuffix::Events,
        CollectionSuffix::Id,
        CollectionSuffix::Events,
        CollectionSuffix::Stalled,
        CollectionSuffix::Marker,
        CollectionSuffix::Prioritized,
        CollectionSuffix::PriorityCounter,
        CollectionSuffix::Meta,
        CollectionSuffix::Paused,
    ]
}

/// The collection of the jobs in a state.
pub open spec fn collection_of(state: JobState) -> CollectionSuffix {
    match state {
        JobState::Prioritized => CollectionSuffix::Prioritized,
        JobState::Completed => CollectionSuffix::Completed,
        JobState::Failed => CollectionSuffix::Failed,
        JobState::Delayed => CollectionSuffix::Delayed,
        JobState::Stalled => CollectionSuffix::Stalled,
        JobState::Active => CollectionSuffix::Active,
        JobState::Paused => CollectionSuffix::Paused,
        _ => CollectionSuffix::Wait,
    }
}

/// The words of an index: a number above the largest signed one counts from
/// the end.
pub open spec fn index_words(index: usize) -> Seq<char> {
    text::signed_digits((index as isize) as int)
}

/// Holds of the pairs that are written to the event stream: all but the id, and
/// no value in which `null` stands.
pub open spec fn is_streamed() -> spec_fn((String, String)) -> bool {
    |pair: (String, String)| pair.0@ != "id"@ && !parse::contains_word(pair.1@, "null"@)
}

/// The pairs that are written to the event stream.
pub fn stream_items(pairs: Vec<(String, String)>) -> (items: Vec<(String, String)>)
    ensures
        items@ == pairs@.filter(is_streamed()),
{
    let ghost keep = is_streamed();
    let mut items: Vec<(String, String)> = Vec::new();
    let mut i: usize = 0;
    proof {
        reveal(Seq::filter);
        assert(pairs@.take(0) =~= Seq::empty());
    }
    while i < pairs.len()
        invariant
            i <= pairs.len(),
            keep == is_streamed(),
            items@ == pairs@.take(i as int).filter(keep),
        decreases pairs.len() - i,
    {
        proof {
            sequences::lemma_filter_step(pairs@, i as int, keep);
        }
        if !same_text(pairs[i].0.as_str(), "id") && !has_word(pairs[i].1.as_str(), "null") {
            items.push((pairs[i].0.clone(), pairs[i].1.clone()));
        }
        i += 1;
    }
    assert(pairs@.take(pairs@.len() as int) =~= pairs@);
    items
}

impl RedisStore {
    /// The command that asks whether `item` is in `col`. For what holds no
    /// items, whether there is such a thing.
    pub open spec fn exists_words(self, col: CollectionSuffix, item: u64) -> Seq<Seq<char>> {
        let key = self.key_words(col);
        let member = text::decimal_digits(item as nat);
        if is_scored(col) {
            seq!["ZSCORE"@, key, member]
        } else if is_list(col) {
            seq!["LPOS"@, key, member]
        } else if col == CollectionSuffix::Stalled {
            seq!["SISMEMBER"@, key, member]
        } else {
            seq!["EXISTS"@, key]
        }
    }

    /// The command that asks whether `item` is in `col`, and how the reply is
    /// read.
    pub fn exists_in(&self, col: CollectionSuffix, item: u64) -> (query: (redis::Cmd, Presence))
        ensures
            pipeline::arguments(query.0) == self.exists_words(col, item),
            query.1 == if is_scored(col) || is_list(col) {
                Presence::NotNil
            } else {
                Presence::Flag
            },
    {
        let key = self.key(col);
        let member = decimal(item);
        match col {
            CollectionSuffix::Completed
            | CollectionSuffix::Delayed
            | CollectionSuffix::Failed
            | CollectionSuffix::Prioritized => (
                command_with_two("ZSCORE", key.as_str(), member.as_str()),
                Presence::NotNil,
            ),
            CollectionSuffix::Stalled => (
                command_with_two("SISMEMBER", key.as_str(), member.as_str()),
                Presence::Flag,
            ),
            CollectionSuffix::Active | CollectionSuffix::Wait | CollectionSuffix::Paused => (
                command_with_two("LPOS", key.as_str(), member.as_str()),
                Presence::NotNil,
            ),
            _ => (command_with_one("EXISTS", key.as_str()), Presence::Flag),
        }
    }

    /// The command that asks whether the queue's metadata has a field.
    pub fn metadata_field_exists(&self, field: &str) -> (command: redis::Cmd)
        ensures
            pipeline::arguments(command) == seq![
                "HEXISTS"@,
                self.key_words(CollectionSuffix::Meta),
                field@,
            ],
    {
        command_with_two("HEXISTS", self.key(CollectionSuffix::Meta).as_str(), field)
    }

    /// The command that stores the event mode.
    pub fn set_event_mode(&self, event_mode: QueueEventMode) -> (command: redis::Cmd)
        ensures
            pipeline::arguments(command) == seq![
                "HSET"@,
                self.key_words(CollectionSuffix::Meta),
                "event_mode"@,
                text::decimal_digits(event_mode.number() as nat),
            ],
    {
        command_with_three(
            "HSET",
            self.key(CollectionSuffix::Meta).as_str(),
            "event_mode",
            decimal(event_mode.as_u8() as u64).as_str(),
        )
    }

    /// The commands that list the delayed jobs due from `start` to `stop`, both
    /// included, and those that missed their time, and remove both.
    pub fn get_delayed_at(&self, start: i64, stop: i64) -> (commands: redis::Pipeline)
        ensures
            ({
                let key = self.key_words(CollectionSuffix::Delayed);
                let first = text::signed_digits(start as int);
                let last = text::signed_digits(stop as int);
                &&& pipeline::commands(commands) == seq![
                    seq!["ZRANGEBYSCORE"@, key, first, last],
                    seq!["ZRANGEBYSCORE"@, key, "-inf"@, "("@ + first],
                    seq!["ZREMRANGEBYSCORE"@, key, first, last],
                    seq!["ZREMRANGEBYSCORE"@, key, "-inf"@, first],
                ]
                &&& pipeline::in_transaction(commands)
            }),
    {
        let key = self.key(CollectionSuffix::Delayed);
        let first = signed(start);
        let last = signed(stop);
        let mut below = String::from_str("(");
        below.append(first.as_str());
        let mut commands = pipeline_new();
        pipeline_atomic(&mut commands);
        pipeline_add(
            &mut commands,
            command_with_three("ZRANGEBYSCORE", key.as_str(), first.as_str(), last.as_str()),
        );
        pipeline_add(
            &mut commands,
            command_with_three("ZRANGEBYSCORE", key.as_str(), "-inf", below.as_str()),
        );
        pipeline_add(
            &mut commands,
            command_with_three("ZREMRANGEBYSCORE", key.as_str(), first.as_str(), last.as_str()),
        );
        pipeline_add(
            &mut commands,
            command_with_three("ZREMRANGEBYSCORE", key.as_str(), "-inf", first.as_str()),
        );
        assert(pipeline::commands(commands) =~= seq![
            seq!["ZRANGEBYSCORE"@, key@, first@, last@],
            seq!["ZRANGEBYSCORE"@, key@, "-inf"@, "("@ + first@],
            seq!["ZREMRANGEBYSCORE"@, key@, first@, last@],
            seq!["ZREMRANGEBYSCORE"@, key@, "-inf"@, first@],
        ]);
        commands
    }

    /// The command that moves the last item of `src` to the front of `dst`.
    pub fn pop_back_push_front(&self, src: CollectionSuffix, dst: CollectionSuffix) -> (command:
        redis::Cmd)
        ensures
            pipeline::arguments(command) == seq![
                "RPOPLPUSH"@,
                self.key_words(src),
                self.key_words(dst),
            ],
    {
        command_with_two("RPOPLPUSH", self.key(src).as_str(), self.key(dst).as_str())
    }

    /// The command that reads a job.
    pub fn get_job(&self, id: u64) -> (command: redis::Cmd)
        ensures
            pipeline::arguments(command) == seq![
                "HGETALL"@,
                self.key_words(CollectionSuffix::Job(id)),
            ],
    {
        command_with_one("HGETALL", self.key(CollectionSuffix::Job(id)).as_str())
    }

    /// The commands that read jobs, in their order.
    pub fn fetch_jobs(&self, ids: &Vec<u64>) -> (commands: redis::Pipeline)
        ensures
            pipeline::in_transaction(commands),
            pipeline::commands(commands).len() == ids@.len(),
            forall|i: int|
                0 <= i < ids@.len() ==> #[trigger] pipeline::commands(commands)[i] == seq![
                    "HGETALL"@,
                    self.key_words(CollectionSuffix::Job(ids@[i])),
                ],
    {
        let mut commands = pipeline_new();
        pipeline_atomic(&mut commands);
        let mut i: usize = 0;
        while i < ids.len()
            invariant
                i <= ids.len(),
                pipeline::in_transaction(commands),
                pipeline::commands(commands).len() == i,
                forall|j: int|
                    0 <= j < i ==> #[trigger] pipeline::commands(commands)[j] == seq![
                        "HGETALL"@,
                        self.key_words(CollectionSuffix::Job(ids@[j])),
                    ],
            decreases ids.len() - i,
        {
            pipeline_add(&mut commands, self.get_job(ids[i]));
            i += 1;
        }
        commands
    }

    /// The command that reads the token that a job is locked with.
    pub fn get_token(&self, id: u64) -> (command: redis::Cmd)
        ensures
            pipeline::arguments(command) == seq!["GET"@, self.key_words(CollectionSuffix::Lock(id))],
    {
        command_with_one("GET", self.key(CollectionSuffix::Lock(id)).as_str())
    }

    /// The command that reads the state of a job.
    pub fn get_state(&self, id: u64) -> (command: redis::Cmd)
        ensures
            pipeline::arguments(command) == seq![
                "HGET"@,
                self.key_words(CollectionSuffix::Job(id)),
                "state"@,
            ],
    {
        command_with_two("HGET", self.key(CollectionSuffix::Job(id)).as_str(), "state")
    }

    /// The command that deletes a collection.
    pub fn remove(&self, key: CollectionSuffix) -> (command: redis::Cmd)
        ensures
            pipeline::arguments(command) == seq!["DEL"@, self.key_words(key)],
    {
        command_with_one("DEL", self.key(key).as_str())
    }

    /// The command that sets, or refreshes, a lock for `lock_duration`
    /// milliseconds: that of a job with the token, where there is one, and
    /// that of the check for stalled jobs with the time in microseconds. There
    /// is none for anything else.
    pub fn set_lock(
        &self,
        col: CollectionSuffix,
        token: Option<&str>,
        lock_duration: u64,
        now_micros: i64,
    ) -> (command: Option<redis::Cmd>)
        ensures
            match (col, token) {
                (CollectionSuffix::Lock(_), Some(token)) => command matches Some(command)
                    && pipeline::arguments(command) == seq![
                    "PSETEX"@,
                    self.key_words(col),
                    text::decimal_digits(lock_duration as nat),
                    token@,
                ],
                (CollectionSuffix::StalledCheck, _) => command matches Some(command)
                    && pipeline::arguments(command) == seq![
                    "PSETEX"@,
                    self.key_words(col),
                    text::decimal_digits(lock_duration as nat),
                    text::signed_digits(now_micros as int),
                ],
                _ => command is None,
            },
    {
        let key = self.key(col);
        let duration = decimal(lock_duration);
        match col {
            CollectionSuffix::Lock(_) => match token {
                Some(token) => Some(
                    command_with_three("PSETEX", key.as_str(), duration.as_str(), token),
                ),
                None => None,
            },
            CollectionSuffix::StalledCheck => Some(
                command_with_three(
                    "PSETEX",
                    key.as_str(),
                    duration.as_str(),
                    signed(now_micros).as_str(),
                ),
            ),
            _ => None,
        }
    }

    /// The command that writes fields of a job.
    pub fn set_fields(&self, job_id: u64, pairs: Vec<(String, String)>) -> (command: redis::Cmd)
        ensures
            pipeline::arguments(command) == seq![
                "HMSET"@,
                self.key_words(CollectionSuffix::Job(job_id)),
            ] + command::pair_words(pairs@),
    {
        let mut words: Vec<String> = Vec::new();
        words.push(String::from_str("HMSET"));
        words.push(self.key(CollectionSuffix::Job(job_id)));
        assert(pipeline::words_of(words@) =~= seq![
            "HMSET"@,
            self.key_words(CollectionSuffix::Job(job_id)),
        ]);
        add_pairs(&mut words, pairs);
        command_of(words)
    }

    /// The command that adds `delta` to a counter, or to a counting field.
    pub fn incr(&self, key: CollectionSuffix, delta: i64, hash_key: Option<&str>) -> (command:
        redis::Cmd)
        ensures
            pipeline::arguments(command) == match hash_key {
                Some(field) => seq![
                    "HINCRBY"@,
                    self.key_words(key),
                    field@,
                    text::signed_digits(delta as int),
                ],
                None => seq!["INCRBY"@, self.key_words(key), text::signed_digits(delta as int)],
            },
    {
        let name = self.key(key);
        match hash_key {
            Some(field) => command_with_three(
                "HINCRBY",
                name.as_str(),
                field,
                signed(delta).as_str(),
            ),
            None => command_with_two("INCRBY", name.as_str(), signed(delta).as_str()),
        }
    }

    /// The command that reads a counter, or a counting field.
    pub fn get_counter(&self, key: CollectionSuffix, hash_key: Option<&str>) -> (command: redis::Cmd)
        ensures
            pipeline::arguments(command) == match hash_key {
                Some(field) => seq!["HGET"@, self.key_words(key), field@],
                None => seq!["GET"@, self.key_words(key)],
            },
    {
        let name = self.key(key);
        match hash_key {
            Some(field) => command_with_two("HGET", name.as_str(), field),
            None => command_with_one("GET", name.as_str()),
        }
    }

    /// The command that publishes an event: to who listens, or in the stream.
    pub fn publish_event<
        R,
        P,
        F: Fn(&QueueStreamEvent<R, P>) -> Vec<(String, String)>,
        G: Fn(&QueueStreamEvent<R, P>) -> String,
    >(
        &self,
        event_mode: QueueEventMode,
        event: &QueueStreamEvent<R, P>,
        to_pairs: &F,
        to_message: &G,
    ) -> (command: redis::Cmd)
        requires
            call_requires(*to_pairs, (event,)),
            call_requires(*to_message, (event,)),
        ensures
            match event_mode {
                QueueEventMode::PubSub => exists|message: String| #[trigger]
                    insertion::writes_event(*to_message, *event, message) && pipeline::arguments(
                        command,
                    ) == seq!["PUBLISH"@, self.key_words(CollectionSuffix::Events), message@],
                QueueEventMode::Stream => exists|pairs: Vec<(String, String)>| #[trigger]
                    writes_pairs(*to_pairs, *event, pairs) && pipeline::arguments(command) == seq![
                        "XADD"@,
                        self.key_words(CollectionSuffix::Events),
                        "*"@,
                    ] + command::pair_words(pairs@.filter(is_streamed())),
            },
    {
        let key = self.key(CollectionSuffix::Events);
        match event_mode {
            QueueEventMode::PubSub => {
                let message = to_message(event);
                assert(insertion::writes_event(*to_message, *event, message));
                command_with_two("PUBLISH", key.as_str(), message.as_str())
            },
            QueueEventMode::Stream => {
                let pairs = to_pairs(event);
                assert(writes_pairs(*to_pairs, *event, pairs));
                let items = stream_items(pairs);
                let mut words: Vec<String> = Vec::new();
                words.push(String::from_str("XADD"));
                words.push(key);
                words.push(String::from_str("*"));
                assert(pipeline::words_of(words@) =~= seq![
                    "XADD"@,
                    self.key_words(CollectionSuffix::Events),
                    "*"@,
                ]);
                add_pairs(&mut words, items);
                command_of(words)
            },
        }
    }

    /// `event` is what is published of the progress of job `id`.
    pub open spec fn is_progress<R, P: Clone>(
        self,
        event: QueueStreamEvent<R, P>,
        id: u64,
        value: P,
    ) -> bool {
        &&& event == QueueStreamEvent {
            job_id: id,
            event: JobState::Progress,
            name: event.name,
            progress_data: event.progress_data,
            ..QueueStreamEvent::<R, P>::blank(event.id)
        }
        &&& event.name matches Some(own) && own@ == self.name@
        &&& event.progress_data matches Some(data) && cloned(value, data)
    }

    /// The commands that store the progress of a job and tell of it; `progress`
    /// is `value` in writing. There are none for a job without an id.
    pub fn update_job_progress<D, R, P: Clone, G: Fn(&QueueStreamEvent<R, P>) -> String>(
        &self,
        job: &Job<D, R, P>,
        value: &P,
        progress: &str,
        event_mode: Option<QueueEventMode>,
        to_message: &G,
    ) -> (commands: Option<redis::Pipeline>)
        requires
            forall|event: &QueueStreamEvent<R, P>| #[trigger] call_requires(*to_message, (event,)),
        ensures
            commands is Some <==> job.id is Some,
            commands matches Some(commands) ==> {
                let id = job.id->0;
                let key = self.key_words(CollectionSuffix::Events);
                let storing = seq![
                    "HSET"@,
                    self.key_words(CollectionSuffix::Job(id)),
                    "progress"@,
                    progress@,
                ];
                &&& pipeline::in_transaction(commands)
                &&& if event_mode == Some(QueueEventMode::PubSub) {
                    exists|event: QueueStreamEvent<R, P>, message: String|
                        self.is_progress(event, id, *value) && #[trigger] insertion::writes_event(
                            *to_message,
                            event,
                            message,
                        ) && pipeline::commands(commands) == seq![
                            storing,
                            seq!["PUBLISH"@, key, message@],
                        ]
                } else {
                    pipeline::commands(commands) == seq![
                        storing,
                        seq![
                            "XADD"@,
                            key,
                            "*"@,
                            "event"@,
                            JobState::Progress.lower_words(),
                            "job_id"@,
                            text::decimal_digits(id as nat),
                            "data"@,
                            progress@,
                            "name"@,
                            self.name@,
                        ],
                    ]
                }
            },
    {
        let id: u64 = match job.id {
            Some(id) => id,
            None => return None,
        };
        let mut commands = pipeline_new();
        pipeline_atomic(&mut commands);
        let job_key = self.key(CollectionSuffix::Job(id));
        let key = self.key(CollectionSuffix::Events);
        pipeline_add(
            &mut commands,
            command_with_three("HSET", job_key.as_str(), "progress", progress),
        );
        let ghost storing = seq!["HSET"@, job_key@, "progress"@, progress@];
        let event_mode = match event_mode {
            Some(event_mode) => event_mode,
            None => QueueEventMode::default(),
        };
        match event_mode {
            QueueEventMode::PubSub => {
                let mut event = QueueStreamEvent::<R, P>::with_id(StreamEventId::default());
                event.job_id = id;
                event.event = JobState::Progress;
                event.name = Some(self.name.clone());
                event.progress_data = Some(value.clone());
                let message = to_message(&event);
                assert(self.is_progress(event, id, *value));
                assert(insertion::writes_event(*to_message, event, message));
                pipeline_add(
                    &mut commands,
                    command_with_two("PUBLISH", key.as_str(), message.as_str()),
                );
                assert(pipeline::commands(commands) =~= seq![
                    storing,
                    seq!["PUBLISH"@, key@, message@],
                ]);
            },
            QueueEventMode::Stream => {
                let mut words: Vec<String> = Vec::new();
                words.push(String::from_str("XADD"));
                words.push(key);
                words.push(String::from_str("*"));
                words.push(String::from_str("event"));
                words.push(JobState::Progress.lower_name());
                words.push(String::from_str("job_id"));
                words.push(decimal(id));
                words.push(String::from_str("data"));
                words.push(String::from_str(progress));
                words.push(String::from_str("name"));
                words.push(self.name.clone());
                let ghost telling = seq![
                    "XADD"@,
                    self.key_words(CollectionSuffix::Events),
                    "*"@,
                    "event"@,
                    JobState::Progress.lower_words(),
                    "job_id"@,
                    text::decimal_digits(id as nat),
                    "data"@,
                    progress@,
                    "name"@,
                    self.name@,
                ];
                assert(pipeline::words_of(words@) =~= telling);
                pipeline_add(&mut commands, command_of(words));
                assert(pipeline::commands(commands) =~= seq![storing, telling]);
            },
        }
        Some(commands)
    }

    /// The command that takes the item with the lowest or the highest score.
    pub fn pop_set(&self, col: CollectionSuffix, min: bool) -> (command: redis::Cmd)
        ensures
            pipeline::arguments(command) == seq![
                if min {
                    "ZPOPMIN"@
                } else {
                    "ZPOPMAX"@
                },
                self.key_words(col),
                "1"@,
            ],
    {
        let key = self.key(col);
        if min {
            command_with_two("ZPOPMIN", key.as_str(), "1")
        } else {
            command_with_two("ZPOPMAX", key.as_str(), "1")
        }
    }

    /// The command that asks whether there is a job.
    pub fn job_exists(&self, id: u64) -> (command: redis::Cmd)
        ensures
            pipeline::arguments(command) == seq![
                "EXISTS"@,
                self.key_words(CollectionSuffix::Job(id)),
            ],
    {
        command_with_one("EXISTS", self.key(CollectionSuffix::Job(id)).as_str())
    }

    /// The command that lets a collection expire after `secs` seconds.
    pub fn expire(&self, col: CollectionSuffix, secs: i64) -> (command: redis::Cmd)
        ensures
            pipeline::arguments(command) == seq![
                "EXPIRE"@,
                self.key_words(col),
                text::signed_digits(secs as int),
            ],
    {
        command_with_two("EXPIRE", self.key(col).as_str(), signed(secs).as_str())
    }

    /// The commands that drop the auxiliary collections. Jobs stay.
    pub fn clear_collections(&self) -> (commands: redis::Pipeline)
        ensures
            !pipeline::in_transaction(commands),
            pipeline::commands(commands) == Seq::new(
                auxiliary().len(),
                |i: int| seq!["DEL"@, self.key_words(auxiliary()[i])],
            ),
    {
        let mut cols: Vec<CollectionSuffix> = Vec::new();
        cols.push(CollectionSuffix::Delayed);
        cols.push(CollectionSuffix::Wait);
        cols.push(CollectionSuffix::Active);
        cols.push(CollectionSuffix::Completed);
        cols.push(CollectionSuffix::Failed);
        cols.push(CollectionSuffix::Events);
        cols.push(CollectionSuffix::Id);
        cols.push(CollectionSuffix::Events);
        cols.push(CollectionSuffix::Stalled);
        cols.push(CollectionSuffix::Marker);
        cols.push(CollectionSuffix::Prioritized);
        cols.push(CollectionSuffix::PriorityCounter);
        cols.push(CollectionSuffix::Meta);
        cols.push(CollectionSuffix::Paused);
        assert(cols@ =~= auxiliary());
        let mut commands = pipeline_new();
        let mut i: usize = 0;
        while i < cols.len()
            invariant
                i <= cols.len(),
                !pipeline::in_transaction(commands),
                pipeline::commands(commands).len() == i,
                forall|j: int|
                    0 <= j < i ==> #[trigger] pipeline::commands(commands)[j] == seq![
                        "DEL"@,
                        self.key_words(cols@[j]),
                    ],
            decreases cols.len() - i,
        {
            pipeline_add(&mut commands, self.remove(cols[i]));
            i += 1;
        }
        assert(pipeline::commands(commands) =~= Seq::new(
            auxiliary().len(),
            |i: int| seq!["DEL"@, self.key_words(auxiliary()[i])],
        ));
        commands
    }

    /// The commands that delete the jobs up to and including `last_id`.
    pub fn clear_jobs(&self, last_id: u64) -> (commands: redis::Pipeline)
        ensures
            pipeline::in_transaction(commands),
            pipeline::commands(commands).len() == last_id,
            forall|i: int|
                0 <= i < last_id ==> #[trigger] pipeline::commands(commands)[i] == seq![
                    "DEL"@,
                    self.key_words(CollectionSuffix::Job((i + 1) as u64)),
                ],
    {
        let mut commands = pipeline_new();
        pipeline_atomic(&mut commands);
        let mut id: u64 = 0;
        while id < last_id
            invariant
                id <= last_id,
                pipeline::in_transaction(commands),
                pipeline::commands(commands).len() == id,
                forall|i: int|
                    0 <= i < id ==> #[trigger] pipeline::commands(commands)[i] == seq![
                        "DEL"@,
                        self.key_words(CollectionSuffix::Job((i + 1) as u64)),
                    ],
            decreases last_id - id,
        {
            id += 1;
            pipeline_add(&mut commands, self.remove(CollectionSuffix::Job(id)));
        }
        commands
    }

    /// The commands that remove `item` from `col`: all of its scores, or its
    /// first place in a list. There are none for what holds no items.
    pub fn remove_item(&self, col: CollectionSuffix, item: u64) -> (commands: redis::Pipeline)
        ensures
            !pipeline::in_transaction(commands),
            ({
                let key = self.key_words(col);
                let member = text::decimal_digits(item as nat);
                pipeline::commands(commands) == if is_scored(col) {
                    seq![seq!["ZREM"@, key, member]]
                } else if col == CollectionSuffix::Stalled {
                    seq![seq!["SREM"@, key, member]]
                } else if is_list(col) {
                    seq![seq!["LREM"@, key, "1"@, member]]
                } else {
                    Seq::empty()
                }
            }),
    {
        let key = self.key(col);
        let member = decimal(item);
        let mut commands = pipeline_new();
        assert(pipeline::commands(commands) =~= Seq::empty());
        match col {
            CollectionSuffix::Completed
            | CollectionSuffix::Delayed
            | CollectionSuffix::Failed
            | CollectionSuffix::Prioritized => {
                pipeline_add(
                    &mut commands,
                    command_with_two("ZREM", key.as_str(), member.as_str()),
                );
                assert(pipeline::commands(commands) =~= seq![seq!["ZREM"@, key@, member@]]);
            },
            CollectionSuffix::Stalled => {
                pipeline_add(
                    &mut commands,
                    command_with_two("SREM", key.as_str(), member.as_str()),
                );
                assert(pipeline::commands(commands) =~= seq![seq!["SREM"@, key@, member@]]);
            },
            CollectionSuffix::Active | CollectionSuffix::Wait | CollectionSuffix::Paused => {
                pipeline_add(
                    &mut commands,
                    command_with_three("LREM", key.as_str(), "1", member.as_str()),
                );
                assert(pipeline::commands(commands) =~= seq![seq!["LREM"@, key@, "1"@, member@]]);
            },
            _ => {},
        }
        commands
    }

    /// The commands that add `item` to `col`: with its score, zero where none
    /// is given, or to the tail of a list where `append` holds, else to its
    /// front. There are none for what holds no items.
    pub fn add_item(
        &self,
        col: CollectionSuffix,
        item: u64,
        score: Option<i64>,
        append: bool,
    ) -> (commands: redis::Pipeline)
        ensures
            !pipeline::in_transaction(commands),
            ({
                let key = self.key_words(col);
                let member = text::decimal_digits(item as nat);
                let score = match score {
                    Some(score) => score as int,
                    None => 0,
                };
                pipeline::commands(commands) == if is_scored(col) {
                    seq![seq!["ZADD"@, key, text::signed_digits(score), member]]
                } else if col == CollectionSuffix::Stalled {
                    seq![seq!["SADD"@, key, member]]
                } else if is_list(col) {
                    seq![
                        seq![
                            if append {
                                "RPUSH"@
                            } else {
                                "LPUSH"@
                            },
                            key,
                            member,
                        ],
                    ]
                } else {
                    Seq::empty()
                }
            }),
    {
        let key = self.key(col);
        let member = decimal(item);
        let mut commands = pipeline_new();
        assert(pipeline::commands(commands) =~= Seq::empty());
        match col {
            CollectionSuffix::Completed
            | CollectionSuffix::Delayed
            | CollectionSuffix::Failed
            | CollectionSuffix::Prioritized => {
                let score: i64 = match score {
                    Some(score) => score,
                    None => 0,
                };
                let score = signed(score);
                pipeline_add(
                    &mut commands,
                    command_with_three("ZADD", key.as_str(), score.as_str(), member.as_str()),
                );
                assert(pipeline::commands(commands) =~= seq![
                    seq!["ZADD"@, key@, score@, member@],
                ]);
            },
            CollectionSuffix::Stalled => {
                pipeline_add(
                    &mut commands,
                    command_with_two("SADD", key.as_str(), member.as_str()),
                );
                assert(pipeline::commands(commands) =~= seq![seq!["SADD"@, key@, member@]]);
            },
            CollectionSuffix::Active | CollectionSuffix::Wait | CollectionSuffix::Paused => {
                let verb = if append {
                    "RPUSH"
                } else {
                    "LPUSH"
                };
                pipeline_add(&mut commands, command_with_two(verb, key.as_str(), member.as_str()));
                assert(pipeline::commands(commands) =~= seq![seq![verb@, key@, member@]]);
            },
            _ => {},
        }
        commands
    }

    /// The list that is renamed when the queue is paused or resumed.
    pub fn paused_source(pause: bool) -> (col: CollectionSuffix)
        ensures
            col == if pause {
                CollectionSuffix::Wait
            } else {
                CollectionSuffix::Paused
            },
    {
        if pause {
            CollectionSuffix::Wait
        } else {
            CollectionSuffix::Paused
        }
    }

    /// The commands that pause the queue, or resume it: the waiting jobs become
    /// the paused ones, or the other way round, where there are any, and the
    /// metadata say so. Gives the event to publish, too.
    pub fn pause<R, P>(&self, pause: bool, source_exists: bool) -> (done: (
        redis::Pipeline,
        QueueStreamEvent<R, P>,
    ))
        ensures
            pipeline::in_transaction(done.0),
            ({
                let waiting = self.key_words(CollectionSuffix::Wait);
                let paused = self.key_words(CollectionSuffix::Paused);
                let meta = self.key_words(CollectionSuffix::Meta);
                let field = JobState::Paused.lower_words();
                let moving = if !source_exists {
                    Seq::empty()
                } else if pause {
                    seq![seq!["RENAME"@, waiting, paused]]
                } else {
                    seq![seq!["RENAME"@, paused, waiting]]
                };
                pipeline::commands(done.0) == moving.push(
                    if pause {
                        seq!["HSET"@, meta, field, "1"@]
                    } else {
                        seq!["HDEL"@, meta, field]
                    },
                )
            }),
            done.1 == QueueStreamEvent::<R, P>::pause_told(pause, done.1.id),
    {
        let waiting = self.key(CollectionSuffix::Wait);
        let paused = self.key(CollectionSuffix::Paused);
        let meta = self.key(CollectionSuffix::Meta);
        let field = JobState::Paused.lower_name();
        let mut commands = pipeline_new();
        pipeline_atomic(&mut commands);
        assert(pipeline::commands(commands) =~= Seq::empty());
        if source_exists {
            if pause {
                pipeline_add(
                    &mut commands,
                    command_with_two("RENAME", waiting.as_str(), paused.as_str()),
                );
                assert(pipeline::commands(commands) =~= seq![
                    seq!["RENAME"@, waiting@, paused@],
                ]);
            } else {
                pipeline_add(
                    &mut commands,
                    command_with_two("RENAME", paused.as_str(), waiting.as_str()),
                );
                assert(pipeline::commands(commands) =~= seq![
                    seq!["RENAME"@, paused@, waiting@],
                ]);
            }
        }
        if pause {
            pipeline_add(
                &mut commands,
                command_with_three("HSET", meta.as_str(), field.as_str(), "1"),
            );
        } else {
            pipeline_add(&mut commands, command_with_two("HDEL", meta.as_str(), field.as_str()));
        }
        (commands, QueueStreamEvent::pause_event(pause))
    }

    /// The first command of a listing of the jobs in `state`: how many there
    /// are, or all of them for a set. There is none for a state that jobs are
    /// not kept by.
    pub fn count_in_state(&self, state: JobState) -> (command: Option<redis::Cmd>)
        ensures
            match state {
                JobState::Prioritized
                | JobState::Completed
                | JobState::Failed
                | JobState::Delayed => command matches Some(command) && pipeline::arguments(command)
                    == seq!["ZCARD"@, self.key_words(collection_of(state))],
                JobState::Stalled => command matches Some(command) && pipeline::arguments(command)
                    == seq!["SMEMBERS"@, self.key_words(CollectionSuffix::Stalled)],
                JobState::Active | JobState::Wait | JobState::Paused => command matches Some(
                    command,
                ) && pipeline::arguments(command) == seq![
                    "LLEN"@,
                    self.key_words(collection_of(state)),
                ],
                _ => command is None,
            },
    {
        match state {
            JobState::Prioritized => Some(
                command_with_one("ZCARD", self.key(CollectionSuffix::Prioritized).as_str()),
            ),
            JobState::Completed => Some(
                command_with_one("ZCARD", self.key(CollectionSuffix::Completed).as_str()),
            ),
            JobState::Failed => Some(
                command_with_one("ZCARD", self.key(CollectionSuffix::Failed).as_str()),
            ),
            JobState::Delayed => Some(
                command_with_one("ZCARD", self.key(CollectionSuffix::Delayed).as_str()),
            ),
            JobState::Stalled => Some(
                command_with_one("SMEMBERS", self.key(CollectionSuffix::Stalled).as_str()),
            ),
            JobState::Active => Some(
                command_with_one("LLEN", self.key(CollectionSuffix::Active).as_str()),
            ),
            JobState::Wait => Some(
                command_with_one("LLEN", self.key(CollectionSuffix::Wait).as_str()),
            ),
            JobState::Paused => Some(
                command_with_one("LLEN", self.key(CollectionSuffix::Paused).as_str()),
            ),
            _ => None,
        }
    }

    /// The second command of a listing of the jobs in `state`, of which there
    /// are `len`: those from position `start` to one behind `end`, or to the
    /// last. There is none where there are no jobs, nor for a set or a state
    /// that jobs are not kept by.
    pub fn range_in_state(
        &self,
        state: JobState,
        len: usize,
        start: Option<usize>,
        end: Option<usize>,
    ) -> (command: Option<redis::Cmd>)
        requires
            end != Some(usize::MAX),
        ensures
            ({
                let start = match start {
                    Some(start) => start,
                    None => 0,
                };
                let end = match end {
                    Some(end) => (end + 1) as usize,
                    None => len,
                };
                let key = self.key_words(collection_of(state));
                match state {
                    JobState::Prioritized
                    | JobState::Completed
                    | JobState::Failed
                    | JobState::Delayed => if len > 0 {
                        command matches Some(command) && pipeline::arguments(command) == seq![
                            "ZRANGE"@,
                            key,
                            index_words(start),
                            index_words(end),
                        ]
                    } else {
                        command is None
                    },
                    JobState::Active | JobState::Wait | JobState::Paused => if len > 0 {
                        command matches Some(command) && pipeline::arguments(command) == seq![
                            "LRANGE"@,
                            key,
                            index_words(start),
                            index_words(end),
                        ]
                    } else {
                        command is None
                    },
                    _ => command is None,
                }
            }),
    {
        if len == 0 {
            return None;
        }
        let start: usize = match start {
            Some(start) => start,
            None => 0,
        };
        let end: usize = match end {
            Some(end) => end + 1,
            None => len,
        };
        let first = signed((start as isize) as i64);
        let last = signed((end as isize) as i64);
        let (verb, col) = match state {
            JobState::Prioritized => ("ZRANGE", CollectionSuffix::Prioritized),
            JobState::Completed => ("ZRANGE", CollectionSuffix::Completed),
            JobState::Failed => ("ZRANGE", CollectionSuffix::Failed),
            JobState::Delayed => ("ZRANGE", CollectionSuffix::Delayed),
            JobState::Active => ("LRANGE", CollectionSuffix::Active),
            JobState::Wait => ("LRANGE", CollectionSuffix::Wait),
            JobState::Paused => ("LRANGE", CollectionSuffix::Paused),
            _ => return None,
        };
        let key = self.key(col);
        Some(command_with_three(verb, key.as_str(), first.as_str(), last.as_str()))
    }

    /// The members of a set from position `start` to position `end`, both
    /// included, or to the last; as many of them as there are.
    pub fn page_of_members(members: &Vec<u64>, start: Option<usize>, end: Option<usize>) -> (page:
        Vec<u64>)
        ensures
            page@ == members_between(members@, start, end),
    {
        let mut i: usize = match start {
            Some(start) => start,
            None => 0,
        };
        let stop: usize = match end {
            Some(end) => if end < members.len() {
                end + 1
            } else {
                members.len()
            },
            None => members.len(),
        };
        let ghost first = i as int;
        let mut page: Vec<u64> = Vec::new();
        if i >= stop {
            return page;
        }
        while i < stop
            invariant
                0 <= first <= i <= stop <= members@.len(),
                page@ == members@.subrange(first, i as int),
            decreases stop - i,
        {
            page.push(members[i]);
            i += 1;
            assert(page@ =~= members@.subrange(first, i as int));
        }
        page
    }
}

/// `pairs` is how `to_pairs` writes the fields of `event`.
pub open spec fn writes_pairs<R, P, F: Fn(&QueueStreamEvent<R, P>) -> Vec<(String, String)>>(
    to_pairs: F,
    event: QueueStreamEvent<R, P>,
    pairs: Vec<(String, String)>,
) -> bool {
    call_ensures(to_pairs, (&event,), pairs)
}

/// The members of a set from position `start` to position `end`, both included, or to
/// the last; as many of them as there are.
pub open spec fn members_between(
    members: Seq<u64>,
    start: Option<usize>,
    end: Option<usize>,
) -> Seq<u64> {
    let start = match start {
        Some(start) => start as int,
        None => 0,
    };
    let stop = match end {
        Some(end) => if end < members.len() {
            end + 1
        } else {
            members.len() as int
        },
        None => members.len() as int,
    };
    if start < stop {
        members.subrange(start, stop)
    } else {
        Seq::empty()
    }
}

} // verus!
