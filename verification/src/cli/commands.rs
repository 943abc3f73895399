//! The commands of the site generator and what each of them sets in motion.

use vstd::prelude::*;

verus! {

/// A parsed command line.
#[derive(Clone, Debug)]
pub struct Cli {
    /// The directory of the site.
    pub path: String,
    pub command: Commands,
}

#[derive(Clone, Debug)]
pub enum Commands {
    /// Lay out a new site.
    Init(InitArgs),
    /// Write a new post or page.
    New(NewArgs),
    /// Build the site.
    Generate(GenArgs),
    /// Build the site and serve it locally.
    Server(ServerArgs),
    /// Remove what a build produced.
    Clean,
    /// Build and deploy the site.
    Deploy,
    /// Manage plugins.
    Plugin(PluginArgs),
}

#[derive(Clone, Debug)]
pub struct InitArgs {
    pub name: String,
    pub title: Option<String>,
}

#[derive(Clone, Debug)]
pub struct NewArgs {
    pub title: String,
    pub path: Option<String>,
    pub page: bool,
}

#[derive(Clone, Copy, Debug, PartialEq, Eq, Structural)]
pub struct GenArgs {
    pub deploy: bool,
    pub watch: bool,
}

#[derive(Clone, Copy, Debug, PartialEq, Eq, Structural)]
pub struct ServerArgs {
    pub port: u16,
    pub watch: bool,
}

#[derive(Clone, Copy, Debug, PartialEq, Eq, Structural)]
pub struct PluginArgs {
    pub command: PluginCommands,
}

#[derive(Clone, Copy, Debug, PartialEq, Eq, Structural)]
pub enum PluginCommands {
    EnableHotReload,
    DisableHotReload,
    List,
}

/// One step of carrying out a command.
#[derive(Clone, Debug)]
pub enum Action {
    /// Where the site directory holds files already, ask whether to go on.
    ConfirmOverwrite { site: String },
    /// Lay out the files of a new site.
    InitializeSite { site: String, title: String },
    /// Write a new page.
    NewPage { title: String, path: String },
    /// Write a new post.
    NewPost { title: String, path: Option<String> },
    /// Initialise the engine: load the plugins and the theme.
    InitEngine,
    /// Build the site.
    Generate,
    /// Watch the source tree and build on every change, in the foreground.
    Watch,
    /// Watch the source tree in the background.
    SpawnWatch,
    /// Wait until the user interrupts.
    WaitForInterrupt,
    /// Call the watch off.
    Unwatch,
    /// Deploy the site.
    Deploy,
    /// Serve the site on a port.
    Serve { port: u16 },
    /// Remove what a build produced.
    Clean,
    /// Switch plugin hot reload on; build if that went well.
    EnableHotReload,
    /// Switch plugin hot reload off.
    DisableHotReload,
    /// Print the loaded plugins.
    ListPlugins,
}

/// The kinds of steps, without what they carry.
#[derive(Clone, Copy, Debug, PartialEq, Eq, Structural)]
pub enum Step {
    ConfirmOverwrite,
    InitializeSite,
    NewPage,
    NewPost,
    InitEngine,
    Generate,
    Watch,
    SpawnWatch,
    WaitForInterrupt,
    Unwatch,
    Deploy,
    Serve,
    Clean,
    EnableHotReload,
    DisableHotReload,
    ListPlugins,
}

impl Action {
    /// The kind of the step.
    pub open spec fn step(&self) -> Step {
        match self {
            Action::ConfirmOverwrite { .. } => Step::ConfirmOverwrite,
            Action::InitializeSite { .. } => Step::InitializeSite,
            Action::NewPage { .. } => Step::NewPage,
            Action::NewPost { .. } => Step::NewPost,
            Action::InitEngine => Step::InitEngine,
            Action::Generate => Step::Generate,
            Action::Watch => Step::Watch,
            Action::SpawnWatch => Step::SpawnWatch,
            Action::WaitForInterrupt => Step::WaitForInterrupt,
            Action::Unwatch => Step::Unwatch,
            Action::Deploy => Step::Deploy,
            Action::Serve { .. } => Step::Serve,
            Action::Clean => Step::Clean,
            Action::EnableHotReload => Step::EnableHotReload,
            Action::DisableHotReload => Step::DisableHotReload,
            Action::ListPlugins => Step::ListPlugins,
        }
    }

    /// Tells the kind of the step.
    pub fn kind(&self) -> (r: Step)
        ensures
            r == self.step(),
    {
        match self {
            Action::ConfirmOverwrite { .. } => Step::ConfirmOverwrite,
            Action::InitializeSite { .. } => Step::InitializeSite,
            Action::NewPage { .. } => Step::NewPage,
            Action::NewPost { .. } => Step::NewPost,
            Action::InitEngine => Step::InitEngine,
            Action::Generate => Step::Generate,
            Action::Watch => Step::Watch,
            Action::SpawnWatch => Step::SpawnWatch,
            Action::WaitForInterrupt => Step::WaitForInterrupt,
            Action::Unwatch => Step::Unwatch,
            Action::Deploy => Step::Deploy,
            Action::Serve { .. } => Step::Serve,
            Action::Clean => Step::Clean,
            Action::EnableHotReload => Step::EnableHotReload,
            Action::DisableHotReload => Step::DisableHotReload,
            Action::ListPlugins => Step::ListPlugins,
        }
    }
}

/// The steps of a command, in the order in which they are taken.
pub open spec fn planned(command: Commands) -> Seq<Step> {
    match command {
        Commands::Init(_) => seq![Step::ConfirmOverwrite, Step::InitializeSite],
        Commands::New(args) => if args.page {
            seq![Step::NewPage]
        } else {
            seq![Step::NewPost]
        },
        Commands::Generate(args) => seq![Step::InitEngine, Step::Generate] + (if args.watch {
            seq![Step::Watch, Step::WaitForInterrupt, Step::Unwatch]
        } else {
            Seq::empty()
        }) + (if args.deploy {
            seq![Step::Deploy]
        } else {
            Seq::empty()
        }),
        Commands::Server(args) => seq![Step::Generate] + (if args.watch {
            seq![Step::SpawnWatch]
        } else {
            Seq::empty()
        }) + seq![Step::Serve, Step::WaitForInterrupt] + (if args.watch {
            seq![Step::Unwatch]
        } else {
            Seq::empty()
        }),
        Commands::Clean => seq![Step::Clean],
        Commands::Deploy => seq![Step::Generate, Step::Deploy],
        Commands::Plugin(args) => match args.command {
            PluginCommands::EnableHotReload => seq![Step::EnableHotReload],
            PluginCommands::DisableHotReload => seq![Step::DisableHotReload],
            PluginCommands::List => seq![Step::ListPlugins, Step::Generate],
        },
    }
}

/// The kinds of a list of steps.
pub open spec fn steps_of(actions: Seq<Action>) -> Seq<Step> {
    actions.map_values(|a: Action| a.step())
}

/// Plans a command: the steps to take, in order, each with what it needs.
///
/// A new site goes into the directory `name` below the given path and is
/// titled by its name unless a title is given; a new page without a path
/// goes to `page`.
pub fn plan(cli: &Cli) -> (actions: Vec<Action>)
    ensures
        steps_of(actions@) == planned(cli.command),
        cli.command matches Commands::Server(args) ==> exists|k: int|
            0 <= k < actions@.len() && #[trigger] actions@[k] == (Action::Serve {
                port: args.port,
            }),
{
    let mut actions: Vec<Action> = Vec::new();
    match &cli.command {
        Commands::Init(args) => {
            let site = crate::text::join_path(cli.path.as_str(), args.name.as_str());
            let title = match &args.title {
                Some(title) => title.clone(),
                None => args.name.clone(),
            };
            actions.push(Action::ConfirmOverwrite { site: site.clone() });
            actions.push(Action::InitializeSite { site, title });
        },
        Commands::New(args) => {
            if args.page {
                let path = match &args.path {
                    Some(path) => path.clone(),
                    None => "page".to_string(),
                };
                actions.push(Action::NewPage { title: args.title.clone(), path });
            } else {
                actions.push(Action::NewPost { title: args.title.clone(), path: args.path.clone() });
            }
        },
        Commands::Generate(args) => {
            actions.push(Action::InitEngine);
            actions.push(Action::Generate);
            if args.watch {
                actions.push(Action::Watch);
                actions.push(Action::WaitForInterrupt);
                actions.push(Action::Unwatch);
            }
            if args.deploy {
                actions.push(Action::Deploy);
            }
        },
        Commands::Server(args) => {
            actions.push(Action::Generate);
            if args.watch {
                actions.push(Action::SpawnWatch);
            }
            actions.push(Action::Serve { port: args.port });
            assert(actions@[actions@.len() - 1] == (Action::Serve { port: args.port }));
            let ghost at = actions@.len() - 1;
            actions.push(Action::WaitForInterrupt);
            if args.watch {
                actions.push(Action::Unwatch);
            }
            assert(actions@[at] == (Action::Serve { port: args.port }));
        },
        Commands::Clean => {
            actions.push(Action::Clean);
        },
        Commands::Deploy => {
            actions.push(Action::Generate);
            actions.push(Action::Deploy);
        },
        Commands::Plugin(args) => match args.command {
            PluginCommands::EnableHotReload => {
                actions.push(Action::EnableHotReload);
            },
            PluginCommands::DisableHotReload => {
                actions.push(Action::DisableHotReload);
            },
            PluginCommands::List => {
                actions.push(Action::ListPlugins);
                actions.push(Action::Generate);
            },
        },
    }
    assert(steps_of(actions@) =~= planned(cli.command));
    actions
}

/// Whether a reply to the question whether to go on means yes: `y`, in
/// either case, with white space around it at most.
pub open spec fn means_yes(reply: Seq<char>) -> bool {
    crate::text::trimmed(reply) == seq!['y'] || crate::text::trimmed(reply) == seq!['Y']
}

/// Tells whether a reply means yes.
pub fn is_yes(reply: &str) -> (r: bool)
    ensures
        r == means_yes(reply@),
{
    let answer = crate::text::trim(reply);
    proof {
        reveal_strlit("y");
        reveal_strlit("Y");
        assert("y"@ =~= seq!['y']);
        assert("Y"@ =~= seq!['Y']);
    }
    crate::text::same_text(answer.as_str(), "y") || crate::text::same_text(answer.as_str(), "Y")
}

/// The files and directories of a new site.
#[derive(Clone, Debug)]
pub struct SiteSkeleton {
    /// The directories to create, parents before children.
    pub directories: Vec<String>,
    /// The files to write, with their text.
    pub files: Vec<SiteFile>,
    /// The files of the default theme, whose text the caller brings along:
    /// the style sheet and the layouts.
    pub theme_files: Vec<String>,
}

/// A file of a new site.
#[derive(Clone, Debug)]
pub struct SiteFile {
    pub path: String,
    pub content: String,
}

/// The configuration of a new site, before the title is filled in at
/// `{title}`.
pub open spec fn config_template() -> Seq<char> {
    CONFIG_TEMPLATE@
}

/// The configuration of a new site with the given title.
pub open spec fn site_config_text(title: Seq<char>) -> Seq<char> {
    crate::text::replace_all(config_template(), "{title}"@, title)
}

/// The first post of a new site.
pub open spec fn hello_post_text() -> Seq<char> {
    HELLO_POST@
}

/// The directories of a new site, relative to its root.
pub open spec fn skeleton_directories() -> Seq<Seq<char>> {
    seq![
        "source"@,
        "source/_posts"@,
        "themes/default"@,
        "themes/default/layout"@,
        "themes/default/source"@,
        "themes/default/source/css"@,
        "themes/default/source/js"@,
        "themes/default/source/images"@,
        "scaffolds"@,
        "plugins"@,
    ]
}

/// The files of the default theme, relative to the root of the site.
pub open spec fn skeleton_theme_files() -> Seq<Seq<char>> {
    seq![
        "themes/default/source/css/style.css"@,
        "themes/default/layout/layout.html"@,
        "themes/default/layout/index.html"@,
        "themes/default/layout/post.html"@,
        "themes/default/layout/category.html"@,
        "themes/default/layout/tag.html"@,
    ]
}

/// The files written into a new site, relative to its root, each with its
/// text.
pub open spec fn skeleton_files(title: Seq<char>) -> Seq<(Seq<char>, Seq<char>)> {
    seq![
        ("_config.yml"@, site_config_text(title)),
        ("source/_posts/hello-world.md"@, hello_post_text()),
        ("scaffolds/post.md"@, POST_SCAFFOLD@),
        ("scaffolds/page.md"@, PAGE_SCAFFOLD@),
    ]
}

pub const CONFIG_TEMPLATE: &'static str = "# 站点信息\ntitle: {title}\nsubtitle: '测试Rust-Hexo功能'\ndescription: '这是一个用于测试Rust-Hexo的博客站点'\nauthor: 'Rust-Hexo用户'\nlanguage: zh-CN\ntimezone: Asia/Shanghai\n\n# URL配置\nurl: http://example.com\nroot: /\npermalink: :year/:month/:day/:title/\npermalink_defaults:\n\n# 目录配置\nsource_dir: source\npublic_dir: public\ntag_dir: tags\ncategory_dir: categories\narchive_dir: archives\ncode_dir: downloads/code\ni18n_dir: :lang\nskip_render:\n\n# 写作配置\nnew_post_name: :title.md\ndefault_layout: post\ntitlecase: false\nexternal_link: true\nfilename_case: 0\nrender_drafts: false\npost_asset_folder: true\nrelative_link: false\nfuture: true\nhighlight:\n  enable: true\n  line_number: true\n  auto_detect: false\n  tab_replace:\n\n# 分类 & 标签\ndefault_category: uncategorized\ncategory_map:\ntag_map:\n\n# 日期 / 时间格式\ndate_format: YYYY-MM-DD\ntime_format: HH:mm:ss\n\n# 分页配置\nper_page: 10\npagination_dir: page\n\n# 主题配置\ntheme: default\n\n# 插件配置\nplugins:\n  - word-count\n  - syntax-highlight\n  - math\n  - search\n  - comments\n\n# 搜索功能\nsearch:\n  enable: true\n  path: search.json\n  field: post\n  content: true\n  format: html\n";

pub const HELLO_POST: &'static str = "---\ntitle: Hello World\ndate: 2023-01-01 12:00:00\ncategories:\n  - 入门指南\ntags:\n  - Rust-Hexo\n  - 指南\n---\n\n# 欢迎使用Rust-Hexo\n\n这是您使用Rust-Hexo创建的第一篇博客文章。您可以编辑此文件来开始您的博客之旅！\n\n## 快速开始\n\n### 创建新文章\n\n``` bash\nrust-hexo new \"我的新文章\"\n```\n\n### 生成静态文件\n\n``` bash\nrust-hexo generate\n```\n\n### 启动本地服务器\n\n``` bash\nrust-hexo server\n```\n\n更多信息请访问[文档](https://github.com/your-username/rust-hexo)。\n";

pub const POST_SCAFFOLD: &'static str = "---\ntitle: {{ title }}\ndate: {{ date }}\ncategories:\ntags:\n---\n";

pub const PAGE_SCAFFOLD: &'static str = "---\ntitle: {{ title }}\ndate: {{ date }}\n---\n";

fn below(site: &str, relative: &str) -> (r: String)
    ensures
        r@ == crate::text::path_join(site@, relative@),
{
    crate::text::join_path(site, relative)
}

/// Lays out a new site at `site`: its directories, its configuration with
/// the title filled in, a first post and the scaffolds for new documents.
pub fn initialize_site_structure(site: &str, title: &str) -> (r: SiteSkeleton)
    ensures
        r.directories@.len() == skeleton_directories().len(),
        forall|k: int|
            0 <= k < r.directories@.len() ==> (#[trigger] r.directories@[k])@
                == crate::text::path_join(site@, skeleton_directories()[k]),
        r.theme_files@.len() == skeleton_theme_files().len(),
        forall|k: int|
            0 <= k < r.theme_files@.len() ==> (#[trigger] r.theme_files@[k])@
                == crate::text::path_join(site@, skeleton_theme_files()[k]),
        r.files@.len() == skeleton_files(title@).len(),
        forall|k: int|
            0 <= k < r.files@.len() ==> (#[trigger] r.files@[k]).path@ == crate::text::path_join(
                site@,
                skeleton_files(title@)[k].0,
            ) && r.files@[k].content@ == skeleton_files(title@)[k].1,
{
    let mut directories: Vec<String> = Vec::new();
    directories.push(below(site, "source"));
    directories.push(below(site, "source/_posts"));
    directories.push(below(site, "themes/default"));
    directories.push(below(site, "themes/default/layout"));
    directories.push(below(site, "themes/default/source"));
    directories.push(below(site, "themes/default/source/css"));
    directories.push(below(site, "themes/default/source/js"));
    directories.push(below(site, "themes/default/source/images"));
    directories.push(below(site, "scaffolds"));
    directories.push(below(site, "plugins"));
    let mut theme_files: Vec<String> = Vec::new();
    theme_files.push(below(site, "themes/default/source/css/style.css"));
    theme_files.push(below(site, "themes/default/layout/layout.html"));
    theme_files.push(below(site, "themes/default/layout/index.html"));
    theme_files.push(below(site, "themes/default/layout/post.html"));
    theme_files.push(below(site, "themes/default/layout/category.html"));
    theme_files.push(below(site, "themes/default/layout/tag.html"));
    let mut files: Vec<SiteFile> = Vec::new();
    files.push(
        SiteFile {
            path: below(site, "_config.yml"),
            content: crate::text::replace_text(CONFIG_TEMPLATE, "{title}", title),
        },
    );
    files.push(
        SiteFile {
            path: below(site, "source/_posts/hello-world.md"),
            content: HELLO_POST.to_string(),
        },
    );
    files.push(
        SiteFile { path: below(site, "scaffolds/post.md"), content: POST_SCAFFOLD.to_string() },
    );
    files.push(
        SiteFile { path: below(site, "scaffolds/page.md"), content: PAGE_SCAFFOLD.to_string() },
    );
    SiteSkeleton { directories, files, theme_files }
}

} // verus!
